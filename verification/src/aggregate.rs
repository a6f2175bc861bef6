//! Completion aggregation: joining every unit's outcome into the
//! process-level result, without fail-fast — every unit is attempted and
//! counted whatever happened to its siblings.

use vstd::prelude::*;

use crate::exchange::{units_view, RequestUnit, RequestUnitView};
use crate::scenario::ConfigError;

verus! {

/// The totals of one run.
#[derive(Clone, Copy, Debug, PartialEq, Eq)]
pub struct RunSummary {
    /// Units whose body arrived and was persisted.
    pub succeeded: usize,
    /// Units that failed, with whatever cause.
    pub failed: usize,
}

/// A unit that has finished, one way or the other.
pub open spec fn spec_terminal(u: RequestUnitView) -> bool {
    u.status is Succeeded || u.status is Failed
}

/// How many units of the run succeeded.
pub open spec fn spec_count_succeeded(s: Seq<RequestUnitView>) -> nat
    decreases s.len(),
{
    if s.len() == 0 {
        0
    } else {
        spec_count_succeeded(s.drop_last()) + (if s.last().status is Succeeded {
            1nat
        } else {
            0nat
        })
    }
}

/// How many units of the run failed.
pub open spec fn spec_count_failed(s: Seq<RequestUnitView>) -> nat
    decreases s.len(),
{
    if s.len() == 0 {
        0
    } else {
        spec_count_failed(s.drop_last()) + (if s.last().status is Failed {
            1nat
        } else {
            0nat
        })
    }
}

/// Joins the outcomes of every unit into the run's totals.
pub fn aggregate(units: &Vec<RequestUnit>) -> (s: RunSummary)
    ensures
        s.succeeded == spec_count_succeeded(units_view(units@)),
        s.failed == spec_count_failed(units_view(units@)),
{
    let ghost all = units_view(units@);
    let mut succeeded: usize = 0;
    let mut failed: usize = 0;
    let mut i: usize = 0;
    while i < units.len()
        invariant
            i <= units@.len(),
            all == units_view(units@),
            succeeded + failed <= i,
            succeeded == spec_count_succeeded(all.take(i as int)),
            failed == spec_count_failed(all.take(i as int)),
        decreases units@.len() - i,
    {
        let st = units[i].status;
        match st {
            crate::exchange::UnitStatus::Succeeded => {
                succeeded = succeeded + 1;
            },
            crate::exchange::UnitStatus::Failed(_) => {
                failed = failed + 1;
            },
            _ => {},
        }
        proof {
            assert(all.take(i + 1).drop_last() =~= all.take(i as int));
            assert(all.take(i + 1).last() == units@[i as int]@);
        }
        i = i + 1;
    }
    proof {
        assert(all.take(units@.len() as int) =~= all);
    }
    RunSummary { succeeded, failed }
}

/// Law: once every unit is terminal, the two counts cover the run — no
/// unit is dropped and none is counted twice.
pub proof fn lemma_counts_cover(s: Seq<RequestUnitView>)
    requires
        forall|i: int| 0 <= i < s.len() ==> spec_terminal(#[trigger] s[i]),
    ensures
        spec_count_succeeded(s) + spec_count_failed(s) == s.len(),
    decreases s.len(),
{
    if s.len() > 0 {
        assert(spec_terminal(s[s.len() - 1]));
        lemma_counts_cover(s.drop_last());
    }
}

/// Law: a run of terminal units has no failure exactly when every unit
/// succeeded.
pub proof fn lemma_no_failure_iff_all_succeeded(s: Seq<RequestUnitView>)
    requires
        forall|i: int| 0 <= i < s.len() ==> spec_terminal(#[trigger] s[i]),
    ensures
        spec_count_failed(s) == 0 <==> (forall|i: int|
            0 <= i < s.len() ==> (#[trigger] s[i].status) is Succeeded),
    decreases s.len(),
{
    if s.len() > 0 {
        assert(spec_terminal(s[s.len() - 1]));
        lemma_no_failure_iff_all_succeeded(s.drop_last());
        if spec_count_failed(s) == 0 {
            assert(forall|i: int|
                0 <= i < s.len() - 1 ==> (#[trigger] s[i].status) == s.drop_last()[i].status);
        } else {
            if forall|i: int| 0 <= i < s.len() ==> (#[trigger] s[i].status) is Succeeded {
                assert(forall|i: int|
                    0 <= i < s.len() - 1 ==> (#[trigger] s.drop_last()[i].status)
                        == s[i].status);
                assert(spec_count_failed(s) == 0);
            }
        }
    }
}

/// Law: one failed unit among terminal units leaves exactly the others
/// succeeded — a failure is isolated to its own unit in the totals.
pub proof fn lemma_single_failure_isolated(s: Seq<RequestUnitView>)
    requires
        forall|i: int| 0 <= i < s.len() ==> spec_terminal(#[trigger] s[i]),
        spec_count_failed(s) == 1,
    ensures
        spec_count_succeeded(s) == s.len() - 1,
{
    lemma_counts_cover(s);
}

/// The process-level result of one invocation.
#[derive(Clone, Copy, Debug, PartialEq, Eq)]
pub enum ProcessOutcome {
    /// The run happened; here are its totals.
    Completed(RunSummary),
    /// A configuration error aborted the process before any run.
    ConfigFailure(ConfigError),
}

/// Exit status of a configuration failure.
pub const CONFIG_FAILURE_EXIT: i32 = 127;

/// Exit status of a run with at least one failed unit.
pub const RUN_FAILURE_EXIT: i32 = 1;

/// The process exit status an outcome maps to: zero only when every unit
/// of the run succeeded; a distinct status for a pre-run configuration
/// error.
pub open spec fn spec_exit_code(o: ProcessOutcome) -> i32 {
    match o {
        ProcessOutcome::ConfigFailure(_) => CONFIG_FAILURE_EXIT,
        ProcessOutcome::Completed(s) => if s.failed == 0 {
            0
        } else {
            RUN_FAILURE_EXIT
        },
    }
}

/// Maps an outcome to the process exit status.
pub fn exit_code(o: &ProcessOutcome) -> (c: i32)
    ensures
        c == spec_exit_code(*o),
{
    match o {
        ProcessOutcome::ConfigFailure(_) => CONFIG_FAILURE_EXIT,
        ProcessOutcome::Completed(s) => if s.failed == 0 {
            0
        } else {
            RUN_FAILURE_EXIT
        },
    }
}

} // verus!
