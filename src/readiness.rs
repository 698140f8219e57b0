use vstd::prelude::*;
use crate::duration::Duration;
use crate::wait_for::WaitFor;

verus! {

/// What the engine reports of a container's health check.
#[derive(Clone, Copy, Debug, PartialEq, Eq, Structural)]
pub enum HealthStatus {
    /// No health check is configured, or nothing was reported yet.
    Unreported,
    Starting,
    Healthy,
    Unhealthy,
}

/// What the runner has seen of a container while it waits on one condition:
/// everything the container wrote to each stream since it started, how long
/// the runner has waited on this condition, and the last health report.
#[derive(Clone, Debug)]
pub struct Observation {
    pub stdout: String,
    pub stderr: String,
    pub waited: Duration,
    pub health: HealthStatus,
}

/// Where one condition stands against an observation.
#[derive(Clone, Copy, Debug, PartialEq, Eq, Structural)]
pub enum Readiness {
    Satisfied,
    Pending,
    /// The container can never become ready; waiting on is pointless.
    Failed,
}

/// Whether `needle` occurs in `hay` as a contiguous run of characters.
pub open spec fn occurs_in(needle: Seq<char>, hay: Seq<char>) -> bool {
    exists|i: int| 0 <= i && i + needle.len() <= hay.len() && #[trigger] hay.subrange(i, i + needle.len()) == needle
}

/// Where condition `c` stands against observation `obs`.
pub open spec fn readiness_of(c: WaitFor, obs: Observation) -> Readiness {
    match c {
        WaitFor::Nothing => Readiness::Satisfied,
        WaitFor::StdOutMessage { message } => if occurs_in(message@, obs.stdout@) {
            Readiness::Satisfied
        } else {
            Readiness::Pending
        },
        WaitFor::StdErrMessage { message } => if occurs_in(message@, obs.stderr@) {
            Readiness::Satisfied
        } else {
            Readiness::Pending
        },
        WaitFor::Duration { length } => if obs.waited.total_nanos() >= length.total_nanos() {
            Readiness::Satisfied
        } else {
            Readiness::Pending
        },
        WaitFor::Healthcheck => match obs.health {
            HealthStatus::Healthy => Readiness::Satisfied,
            HealthStatus::Unhealthy => Readiness::Failed,
            _ => Readiness::Pending,
        },
    }
}

/// Whether `needle` occurs in `hay`; case matters.
pub fn contains_text(hay: &str, needle: &str) -> (r: bool)
    ensures
        r == occurs_in(needle@, hay@),
{
    let n = hay.unicode_len();
    let m = needle.unicode_len();
    if m > n {
        assert forall|i: int| 0 <= i && i + needle@.len() <= hay@.len() implies #[trigger] hay@.subrange(
            i,
            i + needle@.len(),
        ) != needle@ by {}
        return false;
    }
    let last = n - m;
    let mut i: usize = 0;
    loop
        invariant
            n == hay@.len(),
            m == needle@.len(),
            m <= n,
            last == n - m,
            i <= last,
            forall|k: int| 0 <= k < i ==> #[trigger] hay@.subrange(k, k + m) != needle@,
        decreases last - i,
    {
        let mut j: usize = 0;
        let mut same = true;
        while j < m
            invariant
                n == hay@.len(),
                m == needle@.len(),
                i + m <= n,
                j <= m,
                same ==> hay@.subrange(i as int, i + j) =~= needle@.subrange(0, j as int),
                !same ==> hay@.subrange(i as int, i + m) != needle@,
            decreases m - j,
        {
            if same {
                let a = hay.get_char(i + j);
                let b = needle.get_char(j);
                if a != b {
                    assert(hay@.subrange(i as int, i + m)[j as int] != needle@[j as int]);
                    same = false;
                }
            }
            j = j + 1;
        }
        if same {
            assert(needle@.subrange(0, m as int) =~= needle@);
            assert(hay@.subrange(i as int, i + m) == needle@);
            return true;
        }
        if i == last {
            return false;
        }
        i = i + 1;
    }
}

impl WaitFor {
    /// Where this condition stands against what the runner observed.
    pub fn evaluate(&self, obs: &Observation) -> (r: Readiness)
        ensures
            r == readiness_of(*self, *obs),
    {
        match self {
            WaitFor::Nothing => Readiness::Satisfied,
            WaitFor::StdOutMessage { message } => if contains_text(obs.stdout.as_str(), message.as_str()) {
                Readiness::Satisfied
            } else {
                Readiness::Pending
            },
            WaitFor::StdErrMessage { message } => if contains_text(obs.stderr.as_str(), message.as_str()) {
                Readiness::Satisfied
            } else {
                Readiness::Pending
            },
            WaitFor::Duration { length } => if obs.waited.at_least(length) {
                Readiness::Satisfied
            } else {
                Readiness::Pending
            },
            WaitFor::Healthcheck => match obs.health {
                HealthStatus::Healthy => Readiness::Satisfied,
                HealthStatus::Unhealthy => Readiness::Failed,
                _ => Readiness::Pending,
            },
        }
    }
}

/// Where a container stands in its list of readiness conditions.
#[derive(Clone, Copy, Debug, PartialEq, Eq, Structural)]
pub enum ReadyStep {
    /// Every condition was met, in order.
    Ready,
    /// Condition `current` is the one to wait on next; the runner starts
    /// timing afresh when it changes.
    Waiting { current: usize },
    /// Condition `at` failed; the container is not usable.
    Failed { at: usize },
}

/// The step that follows from waiting on condition `current` of `conditions`
/// and observing `obs`.
pub open spec fn next_step(conditions: Seq<WaitFor>, current: int, obs: Observation) -> ReadyStep {
    if current >= conditions.len() {
        ReadyStep::Ready
    } else {
        match readiness_of(conditions[current], obs) {
            Readiness::Satisfied => if current + 1 == conditions.len() {
                ReadyStep::Ready
            } else {
                ReadyStep::Waiting { current: (current + 1) as usize }
            },
            Readiness::Pending => ReadyStep::Waiting { current: current as usize },
            Readiness::Failed => ReadyStep::Failed { at: current as usize },
        }
    }
}

/// One step of the readiness protocol: conditions are met strictly in order,
/// each one before the next is looked at, and one observation moves past at
/// most one condition.
pub fn advance(conditions: &Vec<WaitFor>, current: usize, obs: &Observation) -> (r: ReadyStep)
    requires
        current <= conditions@.len(),
    ensures
        r == next_step(conditions@, current as int, *obs),
{
    if current == conditions.len() {
        return ReadyStep::Ready;
    }
    match conditions[current].evaluate(obs) {
        Readiness::Satisfied => if current + 1 == conditions.len() {
            ReadyStep::Ready
        } else {
            ReadyStep::Waiting { current: current + 1 }
        },
        Readiness::Pending => ReadyStep::Waiting { current },
        Readiness::Failed => ReadyStep::Failed { at: current },
    }
}

/// The step reached from condition `current` after observing each element
/// of `trace` in turn; `Ready` and `Failed` are final.
pub open spec fn run_steps(conditions: Seq<WaitFor>, current: int, trace: Seq<Observation>) -> ReadyStep
    decreases trace.len(),
{
    if trace.len() == 0 {
        if current >= conditions.len() {
            ReadyStep::Ready
        } else {
            ReadyStep::Waiting { current: current as usize }
        }
    } else {
        match next_step(conditions, current, trace[0]) {
            ReadyStep::Waiting { current: c } => run_steps(conditions, c as int, trace.drop_first()),
            other => other,
        }
    }
}

/// `picks` chooses, for each condition from `from` on, an observation of
/// `trace` that meets it, later observations for later conditions.
pub open spec fn met_in_order(
    conditions: Seq<WaitFor>,
    from: int,
    trace: Seq<Observation>,
    picks: Seq<int>,
) -> bool {
    &&& picks.len() == conditions.len() - from
    &&& forall|k: int| 0 <= k < picks.len() ==> 0 <= #[trigger] picks[k] < trace.len()
    &&& forall|k: int| 0 < k < picks.len() ==> picks[k - 1] < #[trigger] picks[k]
    &&& forall|k: int|
        0 <= k < picks.len() ==> readiness_of(conditions[from + k], trace[#[trigger] picks[k]])
            == Readiness::Satisfied
}

/// A container becomes ready only once each of its conditions was met, in
/// the order of the list, each by an observation later than the one that
/// met the condition before it.
pub proof fn ready_only_in_order(conditions: Seq<WaitFor>, current: int, trace: Seq<Observation>)
    requires
        0 <= current <= conditions.len(),
        conditions.len() <= usize::MAX,
        run_steps(conditions, current, trace) == ReadyStep::Ready,
    ensures
        exists|picks: Seq<int>| met_in_order(conditions, current, trace, picks),
    decreases trace.len(),
{
    if current == conditions.len() {
        assert(met_in_order(conditions, current, trace, Seq::<int>::empty()));
    } else {
        let rest = trace.drop_first();
        let shift = |p: int| p + 1;
        match next_step(conditions, current, trace[0]) {
            ReadyStep::Waiting { current: c } => {
                ready_only_in_order(conditions, c as int, rest);
                let later = choose|picks: Seq<int>| met_in_order(conditions, c as int, rest, picks);
                let moved = later.map_values(shift);
                if c as int == current {
                    assert(met_in_order(conditions, current, trace, moved));
                } else {
                    let picks = seq![0int] + moved;
                    assert forall|k: int| 0 < k < picks.len() implies readiness_of(
                        conditions[current + k],
                        trace[#[trigger] picks[k]],
                    ) == Readiness::Satisfied by {
                        assert(picks[k] == later[k - 1] + 1);
                        assert(trace[picks[k]] == rest[later[k - 1]]);
                    }
                    assert(met_in_order(conditions, current, trace, picks));
                }
            },
            _ => {
                assert(met_in_order(conditions, current, trace, seq![0int]));
            },
        }
    }
}

} // verus!
