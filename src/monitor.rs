use vstd::prelude::*;

use crate::entities::{DockerContainerState, ServerStatus, SeverityLevel};
use crate::stats::severity_rank;

verus! {

/// A server's status after a poll: disabled servers are not contacted;
/// enabled ones are healthy exactly when both the health and the stats
/// calls succeeded.
pub open spec fn spec_derive_status(enabled: bool, health_ok: bool, stats_ok: bool) -> ServerStatus {
    if !enabled {
        ServerStatus::Disabled
    } else if health_ok && stats_ok {
        ServerStatus::Healthy
    } else {
        ServerStatus::NotOk
    }
}

pub fn derive_status(enabled: bool, health_ok: bool, stats_ok: bool) -> (r: ServerStatus)
    ensures
        r == spec_derive_status(enabled, health_ok, stats_ok),
{
    if !enabled {
        ServerStatus::Disabled
    } else if health_ok && stats_ok {
        ServerStatus::Healthy
    } else {
        ServerStatus::NotOk
    }
}

/// The reachability alert a poll raises: critical when a healthy server
/// stops answering, normal when an unreachable one answers again, none
/// otherwise.
pub fn reachability_alert(prev: Option<ServerStatus>, curr: ServerStatus) -> (r: Option<SeverityLevel>)
    ensures
        r == (if prev == Some(ServerStatus::Healthy) && curr == ServerStatus::NotOk {
            Some(SeverityLevel::Critical)
        } else if prev == Some(ServerStatus::NotOk) && curr == ServerStatus::Healthy {
            Some(SeverityLevel::Normal)
        } else {
            None
        }),
{
    match (prev, curr) {
        (Some(ServerStatus::Healthy), ServerStatus::NotOk) => Some(SeverityLevel::Critical),
        (Some(ServerStatus::NotOk), ServerStatus::Healthy) => Some(SeverityLevel::Normal),
        _ => None,
    }
}

/// Whether a usage moved to a higher severity, which raises an alert.
pub fn severity_raised(prev: SeverityLevel, curr: SeverityLevel) -> (r: bool)
    ensures
        r == (severity_rank(curr) > severity_rank(prev)),
{
    let a: u8 = match prev {
        SeverityLevel::Normal => 0,
        SeverityLevel::Warning => 1,
        SeverityLevel::Critical => 2,
    };
    let b: u8 = match curr {
        SeverityLevel::Normal => 0,
        SeverityLevel::Warning => 1,
        SeverityLevel::Critical => 2,
    };
    b > a
}

/// The containers of `curr` whose state differs from the state `prev`
/// recorded under the same name, in the order of `curr`, as
/// `(name, from, to)`. Containers new since `prev` raise nothing.
pub open spec fn state_changes(
    prev: Seq<(String, DockerContainerState)>,
    curr: Seq<(String, DockerContainerState)>,
) -> Seq<(Seq<char>, DockerContainerState, DockerContainerState)>
    decreases curr.len(),
{
    if curr.len() == 0 {
        Seq::empty()
    } else {
        let rest = state_changes(prev, curr.drop_last());
        let c = curr.last();
        match first_state(prev, c.0@) {
            Some(from) => if from != c.1 {
                rest.push((c.0@, from, c.1))
            } else {
                rest
            },
            None => rest,
        }
    }
}

/// The state recorded first under `name` in `states`.
pub open spec fn first_state(states: Seq<(String, DockerContainerState)>, name: Seq<char>) -> Option<
    DockerContainerState,
>
    decreases states.len(),
{
    if states.len() == 0 {
        None
    } else if states[0].0@ == name {
        Some(states[0].1)
    } else {
        first_state(states.drop_first(), name)
    }
}

fn find_state(states: &Vec<(String, DockerContainerState)>, name: &String) -> (r: Option<DockerContainerState>)
    ensures
        r == first_state(states@, name@),
{
    let mut i: usize = 0;
    assert(states@.subrange(0, states@.len() as int) =~= states@);
    while i < states.len()
        invariant
            i <= states@.len(),
            first_state(states@, name@) == first_state(states@.subrange(i as int, states@.len() as int), name@),
        decreases states@.len() - i,
    {
        let ghost rest = states@.subrange(i as int, states@.len() as int);
        assert(rest.drop_first() =~= states@.subrange(i + 1, states@.len() as int));
        if states[i].0 == *name {
            return Some(states[i].1);
        }
        i = i + 1;
    }
    None
}

/// The container state changes between two polls, as `state_changes`
/// states them.
pub fn container_state_changes(
    prev: &Vec<(String, DockerContainerState)>,
    curr: &Vec<(String, DockerContainerState)>,
) -> (r: Vec<(String, DockerContainerState, DockerContainerState)>)
    ensures
        r@.map_values(|c: (String, DockerContainerState, DockerContainerState)| (c.0@, c.1, c.2))
            == state_changes(prev@, curr@),
{
    let mut out: Vec<(String, DockerContainerState, DockerContainerState)> = Vec::new();
    let mut i: usize = 0;
    while i < curr.len()
        invariant
            i <= curr@.len(),
            out@.map_values(|c: (String, DockerContainerState, DockerContainerState)| (c.0@, c.1, c.2))
                == state_changes(prev@, curr@.subrange(0, i as int)),
        decreases curr@.len() - i,
    {
        assert(curr@.subrange(0, i + 1).drop_last() =~= curr@.subrange(0, i as int));
        match find_state(prev, &curr[i].0) {
            Some(from) => {
                if from != curr[i].1 {
                    out.push((curr[i].0.clone(), from, curr[i].1));
                }
            },
            None => {},
        }
        assert(out@.map_values(|c: (String, DockerContainerState, DockerContainerState)| (c.0@, c.1, c.2))
            =~= state_changes(prev@, curr@.subrange(0, i + 1)));
        i = i + 1;
    }
    assert(curr@.subrange(0, curr@.len() as int) =~= curr@);
    out
}

} // verus!
