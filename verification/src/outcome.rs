//! Classifying the observable outcome of one probe: given the selected
//! regression criterion, the exit status of the test command and its
//! standard-error text, decide whether the probed toolchain shows the
//! baseline behaviour or the regression.

use vstd::prelude::*;

use crate::least_satisfying::Satisfies;
use crate::text::{contains_seq, str_contains};

verus! {

/// The binary outcome of classifying one probe.
#[derive(Clone, Copy, Debug, PartialEq, Eq, Structural)]
pub enum TestOutcome {
    Baseline,
    Regressed,
}

/// The regression criterion: which observable behaviour counts as
/// regressed.
#[derive(Clone, Copy, Debug, PartialEq, Eq, Structural)]
pub enum RegressOn {
    /// Regressed iff the test command exits with a non-success status
    /// (the common case of hunting a new error or crash).
    ErrorStatus,
    /// Regressed iff the test command exits successfully (hunting the
    /// point where a bug was fixed).
    SuccessStatus,
    /// Regressed iff the diagnostics show an internal compiler error,
    /// regardless of exit status.
    IceAlone,
    /// Regressed iff the diagnostics show no internal compiler error.
    NotIce,
    /// Baseline iff the command fails cleanly, without an internal
    /// compiler error: an ill-formed program that now compiles — or now
    /// crashes the compiler — counts as regressed.
    NonCleanError,
}

impl RegressOn {
    /// Whether classification under this criterion reads the probe's
    /// standard-error text at all.
    pub fn must_process_stderr(self) -> (r: bool)
        ensures
            r == (self is NonCleanError || self is IceAlone || self is NotIce),
    {
        match self {
            RegressOn::ErrorStatus | RegressOn::SuccessStatus => false,
            RegressOn::NonCleanError | RegressOn::IceAlone | RegressOn::NotIce => true,
        }
    }
}

/// The stderr text carries one of the two literal markers of an internal
/// compiler error.
pub open spec fn spec_saw_ice(stderr: Seq<char>) -> bool {
    contains_seq(stderr, "error: internal compiler error"@) || contains_seq(
        stderr,
        "' has overflowed its stack"@,
    )
}

pub fn saw_ice(stderr: &str) -> (r: bool)
    ensures
        r == spec_saw_ice(stderr@),
{
    str_contains(stderr, "error: internal compiler error") || str_contains(
        stderr,
        "' has overflowed its stack",
    )
}

/// The classification table: criterion and exit status decide directly,
/// except where the criterion reads the ICE markers.
pub open spec fn spec_outcome(regress: RegressOn, success: bool, ice: bool) -> TestOutcome {
    match regress {
        RegressOn::ErrorStatus => if success {
            TestOutcome::Baseline
        } else {
            TestOutcome::Regressed
        },
        RegressOn::SuccessStatus => if success {
            TestOutcome::Regressed
        } else {
            TestOutcome::Baseline
        },
        RegressOn::IceAlone => if ice {
            TestOutcome::Regressed
        } else {
            TestOutcome::Baseline
        },
        RegressOn::NotIce => if ice {
            TestOutcome::Baseline
        } else {
            TestOutcome::Regressed
        },
        RegressOn::NonCleanError => if success {
            TestOutcome::Regressed
        } else if ice {
            TestOutcome::Regressed
        } else {
            TestOutcome::Baseline
        },
    }
}

/// Classify one probe. The stderr text is only consulted under the
/// criteria that demand it.
pub fn outcome_of_output(regress: RegressOn, success: bool, stderr: &str) -> (r: TestOutcome)
    ensures
        r == spec_outcome(regress, success, spec_saw_ice(stderr@)),
{
    match regress {
        RegressOn::ErrorStatus => if success {
            TestOutcome::Baseline
        } else {
            TestOutcome::Regressed
        },
        RegressOn::SuccessStatus => if success {
            TestOutcome::Regressed
        } else {
            TestOutcome::Baseline
        },
        RegressOn::IceAlone => if saw_ice(stderr) {
            TestOutcome::Regressed
        } else {
            TestOutcome::Baseline
        },
        RegressOn::NotIce => if saw_ice(stderr) {
            TestOutcome::Baseline
        } else {
            TestOutcome::Regressed
        },
        RegressOn::NonCleanError => if success {
            TestOutcome::Regressed
        } else if saw_ice(stderr) {
            TestOutcome::Regressed
        } else {
            TestOutcome::Baseline
        },
    }
}

/// The classifier is a pure function of criterion, exit status and
/// stderr text: two probes observing identical inputs are classified
/// identically.
pub proof fn lemma_classifier_deterministic(
    regress: RegressOn,
    success: bool,
    s1: Seq<char>,
    s2: Seq<char>,
    r1: TestOutcome,
    r2: TestOutcome,
)
    requires
        s1 == s2,
        r1 == spec_outcome(regress, success, spec_saw_ice(s1)),
        r2 == spec_outcome(regress, success, spec_saw_ice(s2)),
    ensures
        r1 == r2,
{
}

/// A regressed outcome satisfies the search predicate; a baseline
/// outcome does not.
pub fn satisfies_of_outcome(outcome: TestOutcome) -> (r: Satisfies)
    ensures
        r == (if outcome is Regressed {
            Satisfies::Yes
        } else {
            Satisfies::No
        }),
{
    match outcome {
        TestOutcome::Regressed => Satisfies::Yes,
        TestOutcome::Baseline => Satisfies::No,
    }
}

} // verus!
