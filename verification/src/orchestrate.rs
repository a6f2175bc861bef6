//! The client run's orchestration: which connection-groups to start and
//! when.  With a carved-out first group, the remaining groups may start
//! only after the first group's session has fully closed — an ordering the
//! transition function enforces, not a race.

use vstd::prelude::*;

use crate::scenario::ScenarioProfile;

verus! {

/// Where the client run stands.
#[derive(Clone, Copy, Debug, PartialEq, Eq)]
pub enum RunPhase {
    /// Nothing started yet.
    Ready,
    /// The carved-out first group's session is running alone.
    FirstInFlight,
    /// The remaining groups run concurrently.
    RestInFlight,
    /// Every group finished and every session closed.
    Complete,
}

/// One observation the shell reports to the orchestrator.
#[derive(Clone, Copy, Debug, PartialEq, Eq)]
pub enum OrchEvent {
    /// The run begins.
    Begin,
    /// The first group's session reached the closed state.
    FirstClosed,
    /// Every remaining group's session closed.
    RestClosed,
}

/// What the shell does next.
#[derive(Clone, Copy, Debug, PartialEq, Eq)]
pub enum OrchAction {
    /// Establish sessions and run the exchanges of the groups with these
    /// indices (inclusive lower bound, exclusive upper bound), concurrently.
    StartGroups(usize, usize),
    /// The run is over; aggregate the outcomes.
    Finished,
    /// Nothing to do.
    Idle,
}

/// The orchestrator of one client run.
#[derive(Clone, Copy, Debug, PartialEq, Eq)]
pub struct Orchestrator {
    /// Whether the first group must fully drain before the rest start.
    pub first_separate: bool,
    /// How many connection-groups the partition produced.
    pub n_groups: usize,
    /// Where the run stands.
    pub phase: RunPhase,
}

/// The orchestrator a run starts with.
pub open spec fn spec_orch_init(p: ScenarioProfile, n_groups: usize) -> Orchestrator {
    Orchestrator { first_separate: p.first_request_separate, n_groups, phase: RunPhase::Ready }
}

/// Builds the orchestrator for a run of `n_groups` groups under a profile.
pub fn orch_init(profile: &ScenarioProfile, n_groups: usize) -> (o: Orchestrator)
    ensures
        o == spec_orch_init(*profile, n_groups),
{
    Orchestrator {
        first_separate: profile.first_request_separate,
        n_groups,
        phase: RunPhase::Ready,
    }
}

/// The orchestrator's transition function.  An empty run completes at
/// once.  With the first group carved out, `Begin` starts only group 0;
/// the rest start in one batch when — and only when — the first session
/// has closed.  Without the carve-out, `Begin` starts every group at once.
pub open spec fn spec_orch_step(o: Orchestrator, e: OrchEvent) -> (Orchestrator, OrchAction) {
    match o.phase {
        RunPhase::Ready => match e {
            OrchEvent::Begin => if o.n_groups == 0 {
                (Orchestrator { phase: RunPhase::Complete, ..o }, OrchAction::Finished)
            } else if o.first_separate {
                (
                    Orchestrator { phase: RunPhase::FirstInFlight, ..o },
                    OrchAction::StartGroups(0, 1),
                )
            } else {
                (
                    Orchestrator { phase: RunPhase::RestInFlight, ..o },
                    OrchAction::StartGroups(0, o.n_groups),
                )
            },
            _ => (o, OrchAction::Idle),
        },
        RunPhase::FirstInFlight => match e {
            OrchEvent::FirstClosed => if o.n_groups > 1 {
                (
                    Orchestrator { phase: RunPhase::RestInFlight, ..o },
                    OrchAction::StartGroups(1, o.n_groups),
                )
            } else {
                (Orchestrator { phase: RunPhase::Complete, ..o }, OrchAction::Finished)
            },
            _ => (o, OrchAction::Idle),
        },
        RunPhase::RestInFlight => match e {
            OrchEvent::RestClosed => (
                Orchestrator { phase: RunPhase::Complete, ..o },
                OrchAction::Finished,
            ),
            _ => (o, OrchAction::Idle),
        },
        RunPhase::Complete => (o, OrchAction::Idle),
    }
}

/// Advances the orchestrator by one observation.
pub fn orch_step(o: Orchestrator, e: OrchEvent) -> (r: (Orchestrator, OrchAction))
    ensures
        r == spec_orch_step(o, e),
{
    match o.phase {
        RunPhase::Ready => match e {
            OrchEvent::Begin => if o.n_groups == 0 {
                (Orchestrator { phase: RunPhase::Complete, ..o }, OrchAction::Finished)
            } else if o.first_separate {
                (
                    Orchestrator { phase: RunPhase::FirstInFlight, ..o },
                    OrchAction::StartGroups(0, 1),
                )
            } else {
                (
                    Orchestrator { phase: RunPhase::RestInFlight, ..o },
                    OrchAction::StartGroups(0, o.n_groups),
                )
            },
            _ => (o, OrchAction::Idle),
        },
        RunPhase::FirstInFlight => match e {
            OrchEvent::FirstClosed => if o.n_groups > 1 {
                (
                    Orchestrator { phase: RunPhase::RestInFlight, ..o },
                    OrchAction::StartGroups(1, o.n_groups),
                )
            } else {
                (Orchestrator { phase: RunPhase::Complete, ..o }, OrchAction::Finished)
            },
            _ => (o, OrchAction::Idle),
        },
        RunPhase::RestInFlight => match e {
            OrchEvent::RestClosed => (
                Orchestrator { phase: RunPhase::Complete, ..o },
                OrchAction::Finished,
            ),
            _ => (o, OrchAction::Idle),
        },
        RunPhase::Complete => (o, OrchAction::Idle),
    }
}

/// The orchestrator a run reaches after a sequence of observations.
pub open spec fn spec_orch_run(o: Orchestrator, evs: Seq<OrchEvent>) -> Orchestrator
    decreases evs.len(),
{
    if evs.len() == 0 {
        o
    } else {
        spec_orch_run(spec_orch_step(o, evs[0]).0, evs.skip(1))
    }
}

/// The actions a run emits, one per observation.
pub open spec fn spec_orch_actions(o: Orchestrator, evs: Seq<OrchEvent>) -> Seq<OrchAction>
    decreases evs.len(),
{
    if evs.len() == 0 {
        Seq::empty()
    } else {
        seq![spec_orch_step(o, evs[0]).1] + spec_orch_actions(
            spec_orch_step(o, evs[0]).0,
            evs.skip(1),
        )
    }
}

/// A run emits exactly one action per observation.
pub proof fn lemma_orch_actions_len(o: Orchestrator, evs: Seq<OrchEvent>)
    ensures
        spec_orch_actions(o, evs).len() == evs.len(),
    decreases evs.len(),
{
    if evs.len() > 0 {
        lemma_orch_actions_len(spec_orch_step(o, evs[0]).0, evs.skip(1));
    }
}

/// Whether an action starts the group with index `g`.
pub open spec fn starts_group(a: OrchAction, g: int) -> bool {
    match a {
        OrchAction::StartGroups(lo, hi) => lo <= g < hi,
        _ => false,
    }
}

/// A completed run stays completed and never acts again.
pub proof fn lemma_complete_absorbs(o: Orchestrator, evs: Seq<OrchEvent>)
    requires
        o.phase is Complete,
    ensures
        spec_orch_run(o, evs) == o,
        forall|i: int|
            0 <= i < evs.len() ==> spec_orch_actions(o, evs)[i] == OrchAction::Idle,
    decreases evs.len(),
{
    if evs.len() > 0 {
        lemma_complete_absorbs(o, evs.skip(1));
        let acts = spec_orch_actions(o, evs);
        let tail = spec_orch_actions(o, evs.skip(1));
        lemma_orch_actions_len(o, evs);
        lemma_orch_actions_len(o, evs.skip(1));
        assert(forall|i: int| 0 <= i < evs.len() - 1 ==> acts[i + 1] == tail[i]);
    }
}

/// Law: with the first request carved out, no later group starts before
/// the first group's session has closed.  Any action that starts a group
/// other than the first is emitted, at the earliest, in the very step that
/// observes the first session's closure — an ordering the machine
/// enforces, not a race that usually wins.
pub proof fn lemma_first_group_drained_first(
    p: ScenarioProfile,
    n_groups: usize,
    evs: Seq<OrchEvent>,
    i: int,
    g: int,
)
    requires
        p.first_request_separate,
        0 <= i < evs.len(),
        g >= 1,
        starts_group(spec_orch_actions(spec_orch_init(p, n_groups), evs)[i], g),
    ensures
        exists|j: int| 0 <= j <= i && evs[j] == OrchEvent::FirstClosed,
{
    lemma_first_group_from(spec_orch_init(p, n_groups), evs, i, g);
}

/// The inductive core of `lemma_first_group_drained_first`, generalized
/// over the phases in which no later group has started yet.
proof fn lemma_first_group_from(o: Orchestrator, evs: Seq<OrchEvent>, i: int, g: int)
    requires
        o.first_separate,
        o.phase is Ready || o.phase is FirstInFlight,
        0 <= i < evs.len(),
        g >= 1,
        starts_group(spec_orch_actions(o, evs)[i], g),
    ensures
        exists|j: int| 0 <= j <= i && evs[j] == OrchEvent::FirstClosed,
    decreases evs.len(),
{
    let (o1, a1) = spec_orch_step(o, evs[0]);
    let acts = spec_orch_actions(o, evs);
    let tail = spec_orch_actions(o1, evs.skip(1));
    lemma_orch_actions_len(o, evs);
    lemma_orch_actions_len(o1, evs.skip(1));
    assert(acts[0] == a1);
    assert(forall|k: int| 0 <= k < evs.len() - 1 ==> acts[k + 1] == tail[k]);
    if i == 0 {
        assert(evs[0] == OrchEvent::FirstClosed);
    } else {
        if o1.phase is Ready || o1.phase is FirstInFlight {
            lemma_first_group_from(o1, evs.skip(1), i - 1, g);
            let j0 = choose|j: int|
                0 <= j <= i - 1 && evs.skip(1)[j] == OrchEvent::FirstClosed;
            assert(evs[j0 + 1] == OrchEvent::FirstClosed);
        } else if o1.phase is RestInFlight {
            assert(evs[0] == OrchEvent::FirstClosed);
        } else {
            if o.phase is FirstInFlight {
                assert(evs[0] == OrchEvent::FirstClosed);
            } else {
                lemma_complete_absorbs(o1, evs.skip(1));
                assert(acts[i] == tail[i - 1]);
                assert(false);
            }
        }
    }
}

} // verus!
