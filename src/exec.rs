use vstd::prelude::*;
use crate::wait_for::WaitFor;

verus! {

/// A command to run inside a container once it has started, with the
/// condition on the command's own output that marks it as done and the
/// conditions on the container that must hold again afterwards.
#[derive(Debug)]
pub struct ExecCommand {
    cmd: Vec<String>,
    cmd_ready_condition: WaitFor,
    container_ready_conditions: Vec<WaitFor>,
}

impl ExecCommand {
    pub closed spec fn spec_cmd(&self) -> Seq<String> {
        self.cmd@
    }

    pub closed spec fn spec_cmd_ready_condition(&self) -> WaitFor {
        self.cmd_ready_condition
    }

    pub closed spec fn spec_container_ready_conditions(&self) -> Seq<WaitFor> {
        self.container_ready_conditions@
    }

    /// The command `cmd`, done at once, with no condition on the container.
    pub fn new(cmd: Vec<String>) -> (r: ExecCommand)
        ensures
            r.spec_cmd() == cmd@,
            r.spec_cmd_ready_condition() == WaitFor::Nothing,
            r.spec_container_ready_conditions() == Seq::<WaitFor>::empty(),
    {
        ExecCommand {
            cmd,
            cmd_ready_condition: WaitFor::Nothing,
            container_ready_conditions: Vec::new(),
        }
    }

    /// This command, with `ready_conditions` to check on the container after it.
    pub fn with_container_ready_conditions(self, ready_conditions: Vec<WaitFor>) -> (r: ExecCommand)
        ensures
            r.spec_cmd() == self.spec_cmd(),
            r.spec_cmd_ready_condition() == self.spec_cmd_ready_condition(),
            r.spec_container_ready_conditions() == ready_conditions@,
    {
        ExecCommand { container_ready_conditions: ready_conditions, ..self }
    }

    /// This command, with `ready_condition` to check on its own output.
    pub fn with_cmd_ready_condition(self, ready_condition: WaitFor) -> (r: ExecCommand)
        ensures
            r.spec_cmd() == self.spec_cmd(),
            r.spec_cmd_ready_condition() == ready_condition,
            r.spec_container_ready_conditions() == self.spec_container_ready_conditions(),
    {
        ExecCommand { cmd_ready_condition: ready_condition, ..self }
    }

    /// The command line.
    pub fn cmd(&self) -> (r: &Vec<String>)
        ensures
            r@ == self.spec_cmd(),
    {
        &self.cmd
    }

    /// The condition on the command's own output.
    pub fn cmd_ready_condition(&self) -> (r: &WaitFor)
        ensures
            *r == self.spec_cmd_ready_condition(),
    {
        &self.cmd_ready_condition
    }

    /// The conditions to check on the container after the command.
    pub fn container_ready_conditions(&self) -> (r: &Vec<WaitFor>)
        ensures
            r@ == self.spec_container_ready_conditions(),
    {
        &self.container_ready_conditions
    }
}

impl Default for ExecCommand {
    fn default() -> (r: ExecCommand)
        ensures
            r.spec_cmd() == Seq::<String>::empty(),
            r.spec_cmd_ready_condition() == WaitFor::Nothing,
            r.spec_container_ready_conditions() == Seq::<WaitFor>::empty(),
    {
        ExecCommand::new(Vec::new())
    }
}

} // verus!
