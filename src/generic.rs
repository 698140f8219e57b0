use vstd::prelude::*;
use crate::exec::ExecCommand;
use crate::image::{Image, Overlay, RunnableImage};
use vstd::pervasive::strictly_cloned;
use crate::keyed::{KeyedMap, entries_map, text_map, view_entries};
use crate::ports::ContainerState;
use crate::wait_for::WaitFor;

verus! {

/// An image described entirely by its settings: any name and tag, with the
/// readiness conditions, environment, volumes, entrypoint and extra ports
/// given through its builders.
#[derive(Debug)]
pub struct GenericImage {
    name: String,
    tag: String,
    wait_for: Vec<WaitFor>,
    env_vars: KeyedMap<String>,
    volumes: KeyedMap<String>,
    entrypoint: Option<String>,
    exposed_ports: Vec<u16>,
}

fn copy_conditions(conditions: &Vec<WaitFor>) -> (r: Vec<WaitFor>)
    ensures
        r@ == conditions@,
{
    let mut r: Vec<WaitFor> = Vec::new();
    let n = conditions.len();
    let mut i: usize = 0;
    while i < n
        invariant
            n == conditions@.len(),
            i <= n,
            r@ == conditions@.subrange(0, i as int),
        decreases n - i,
    {
        r.push(conditions[i].clone());
        assert(r@ =~= conditions@.subrange(0, i + 1));
        i = i + 1;
    }
    assert(r@ =~= conditions@);
    r
}

fn copy_ports(ports: &Vec<u16>) -> (r: Vec<u16>)
    ensures
        r@ == ports@,
{
    let mut r: Vec<u16> = Vec::new();
    let n = ports.len();
    let mut i: usize = 0;
    while i < n
        invariant
            n == ports@.len(),
            i <= n,
            r@ == ports@.subrange(0, i as int),
        decreases n - i,
    {
        r.push(ports[i]);
        assert(r@ =~= ports@.subrange(0, i + 1));
        i = i + 1;
    }
    assert(r@ =~= ports@);
    r
}

fn copy_entries(map: &KeyedMap<String>) -> (r: Vec<(String, String)>)
    ensures
        r@ == map.spec_raw(),
{
    let entries = map.entries();
    let mut r: Vec<(String, String)> = Vec::new();
    let n = entries.len();
    let mut i: usize = 0;
    while i < n
        invariant
            n == entries@.len(),
            entries@ == map.spec_raw(),
            i <= n,
            r@ == entries@.subrange(0, i as int),
        decreases n - i,
    {
        let (k, v) = &entries[i];
        r.push((k.clone(), v.clone()));
        assert(r@ =~= entries@.subrange(0, i + 1));
        i = i + 1;
    }
    assert(r@ =~= entries@);
    r
}

impl GenericImage {
    /// The environment, as a map from name to value.
    pub open spec fn spec_env_map(&self) -> Map<Seq<char>, Seq<char>> {
        text_map(entries_map(view_entries(self.spec_env_vars())))
    }

    /// The volumes, as a map from host path to container path.
    pub open spec fn spec_volume_map(&self) -> Map<Seq<char>, Seq<char>> {
        text_map(entries_map(view_entries(self.spec_volumes())))
    }

    /// Image `name` at `tag`, ready at once, with nothing else set.
    pub fn new(name: &str, tag: &str) -> (r: GenericImage)
        ensures
            r.spec_name() == name@,
            r.spec_tag() == tag@,
            r.spec_ready_conditions() == Seq::<WaitFor>::empty(),
            r.spec_env_vars() == Seq::<(String, String)>::empty(),
            r.spec_volumes() == Seq::<(String, String)>::empty(),
            r.spec_entrypoint() == None::<String>,
            r.spec_expose_ports() == Seq::<u16>::empty(),
    {
        let r = GenericImage {
            name: name.to_owned(),
            tag: tag.to_owned(),
            wait_for: Vec::new(),
            env_vars: KeyedMap::new(),
            volumes: KeyedMap::new(),
            entrypoint: None,
            exposed_ports: Vec::new(),
        };
        r
    }

    /// This image with `condition` added after its readiness conditions.
    pub fn with_wait_for(self, condition: WaitFor) -> (r: GenericImage)
        ensures
            r.spec_ready_conditions() == self.spec_ready_conditions().push(condition),
            r.spec_name() == self.spec_name() && r.spec_tag() == self.spec_tag(),
            r.spec_env_vars() == self.spec_env_vars() && r.spec_volumes() == self.spec_volumes(),
            r.spec_entrypoint() == self.spec_entrypoint(),
            r.spec_expose_ports() == self.spec_expose_ports(),
    {
        let mut wait_for = self.wait_for;
        wait_for.push(condition);
        GenericImage { wait_for, ..self }
    }

    /// This image with environment variable `var.0` set to `var.1`.
    pub fn with_env_var(self, var: (&str, &str)) -> (r: GenericImage)
        ensures
            r.spec_env_map() == self.spec_env_map().insert(var.0@, var.1@),
            r.spec_name() == self.spec_name() && r.spec_tag() == self.spec_tag(),
            r.spec_ready_conditions() == self.spec_ready_conditions(),
            r.spec_volumes() == self.spec_volumes(),
            r.spec_entrypoint() == self.spec_entrypoint(),
            r.spec_expose_ports() == self.spec_expose_ports(),
    {
        let value = var.1.to_owned();
        let env_vars = self.env_vars.insert(var.0.to_owned(), value);
        let r = GenericImage { env_vars, ..self };
        proof {
            r.env_vars.entries_match();
            self.env_vars.entries_match();
        }
        assert(r.spec_env_map() =~= self.spec_env_map().insert(var.0@, var.1@));
        r
    }

    /// This image with host path `volume.0` mounted at `volume.1`.
    pub fn with_volume(self, volume: (&str, &str)) -> (r: GenericImage)
        ensures
            r.spec_volume_map() == self.spec_volume_map().insert(volume.0@, volume.1@),
            r.spec_name() == self.spec_name() && r.spec_tag() == self.spec_tag(),
            r.spec_ready_conditions() == self.spec_ready_conditions(),
            r.spec_env_vars() == self.spec_env_vars(),
            r.spec_entrypoint() == self.spec_entrypoint(),
            r.spec_expose_ports() == self.spec_expose_ports(),
    {
        let dest = volume.1.to_owned();
        let volumes = self.volumes.insert(volume.0.to_owned(), dest);
        let r = GenericImage { volumes, ..self };
        proof {
            r.volumes.entries_match();
            self.volumes.entries_match();
        }
        assert(r.spec_volume_map() =~= self.spec_volume_map().insert(volume.0@, volume.1@));
        r
    }

    /// This image with `entrypoint` in place of the image's own.
    pub fn with_entrypoint(self, entrypoint: &str) -> (r: GenericImage)
        ensures
            r.spec_entrypoint() matches Some(e) && e@ == entrypoint@,
            r.spec_name() == self.spec_name() && r.spec_tag() == self.spec_tag(),
            r.spec_ready_conditions() == self.spec_ready_conditions(),
            r.spec_env_vars() == self.spec_env_vars() && r.spec_volumes() == self.spec_volumes(),
            r.spec_expose_ports() == self.spec_expose_ports(),
    {
        GenericImage { entrypoint: Some(entrypoint.to_owned()), ..self }
    }

    /// This image with internal port `port` published as well.
    pub fn with_exposed_port(self, port: u16) -> (r: GenericImage)
        ensures
            r.spec_expose_ports() == self.spec_expose_ports().push(port),
            r.spec_name() == self.spec_name() && r.spec_tag() == self.spec_tag(),
            r.spec_ready_conditions() == self.spec_ready_conditions(),
            r.spec_env_vars() == self.spec_env_vars() && r.spec_volumes() == self.spec_volumes(),
            r.spec_entrypoint() == self.spec_entrypoint(),
    {
        let mut exposed_ports = self.exposed_ports;
        exposed_ports.push(port);
        GenericImage { exposed_ports, ..self }
    }
}

impl Clone for GenericImage {
    fn clone(&self) -> (r: GenericImage)
        ensures
            r.spec_name() == self.spec_name() && r.spec_tag() == self.spec_tag(),
            r.spec_ready_conditions() == self.spec_ready_conditions(),
            r.spec_env_vars() == self.spec_env_vars() && r.spec_volumes() == self.spec_volumes(),
            r.spec_entrypoint() == self.spec_entrypoint(),
            r.spec_expose_ports() == self.spec_expose_ports(),
    {
        GenericImage {
            name: self.name.clone(),
            tag: self.tag.clone(),
            wait_for: copy_conditions(&self.wait_for),
            env_vars: self.env_vars.copy_with(|v: &String| -> (c: String) ensures c == *v { v.clone() }),
            volumes: self.volumes.copy_with(|v: &String| -> (c: String) ensures c == *v { v.clone() }),
            entrypoint: match &self.entrypoint {
                Some(e) => Some(e.clone()),
                None => None,
            },
            exposed_ports: copy_ports(&self.exposed_ports),
        }
    }
}

impl Image for GenericImage {
    type Args = Vec<String>;

    closed spec fn spec_name(&self) -> Seq<char> {
        self.name@
    }

    closed spec fn spec_tag(&self) -> Seq<char> {
        self.tag@
    }

    closed spec fn spec_ready_conditions(&self) -> Seq<WaitFor> {
        self.wait_for@
    }

    closed spec fn spec_env_vars(&self) -> Seq<(String, String)> {
        self.env_vars.spec_raw()
    }

    closed spec fn spec_volumes(&self) -> Seq<(String, String)> {
        self.volumes.spec_raw()
    }

    closed spec fn spec_entrypoint(&self) -> Option<String> {
        self.entrypoint
    }

    closed spec fn spec_expose_ports(&self) -> Seq<u16> {
        self.exposed_ports@
    }

    closed spec fn spec_exec_after_start(&self, cs: ContainerState) -> Seq<ExecCommand> {
        Seq::empty()
    }

    fn name(&self) -> (r: String) {
        self.name.clone()
    }

    fn tag(&self) -> (r: String) {
        self.tag.clone()
    }

    fn ready_conditions(&self) -> (r: Vec<WaitFor>) {
        copy_conditions(&self.wait_for)
    }

    fn env_vars(&self) -> (r: Vec<(String, String)>) {
        copy_entries(&self.env_vars)
    }

    fn volumes(&self) -> (r: Vec<(String, String)>) {
        copy_entries(&self.volumes)
    }

    fn entrypoint(&self) -> (r: Option<String>) {
        match &self.entrypoint {
            Some(e) => Some(e.clone()),
            None => None,
        }
    }

    fn expose_ports(&self) -> (r: Vec<u16>) {
        copy_ports(&self.exposed_ports)
    }

    fn exec_after_start(&self, cs: ContainerState) -> (r: Vec<ExecCommand>) {
        Vec::new()
    }
}

/// A copy of an overlay over a generic image is an independent overlay with
/// the same image reference, environment, volumes, host aliases and ports as
/// the base.
pub proof fn cloned_overlay_matches_base(
    base: RunnableImage<GenericImage>,
    copy: RunnableImage<GenericImage>,
)
    requires
        strictly_cloned(base.spec_image(), copy.spec_image()),
        copy@ == (Overlay { args: copy@.args, ..base@ }),
    ensures
        copy.spec_descriptor() == base.spec_descriptor(),
        copy.spec_image().spec_env_vars() == base.spec_image().spec_env_vars(),
        copy.spec_image().spec_volumes() == base.spec_image().spec_volumes(),
        copy.spec_image().spec_ready_conditions() == base.spec_image().spec_ready_conditions(),
        copy@.env_vars == base@.env_vars,
        copy@.hosts == base@.hosts,
        copy@.volumes == base@.volumes,
        copy@.ports == base@.ports,
{
}

} // verus!
