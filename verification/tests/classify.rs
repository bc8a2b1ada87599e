use cargo_bisect_rustc::least_satisfying::Satisfies;
use cargo_bisect_rustc::outcome::{
    outcome_of_output, satisfies_of_outcome, saw_ice, RegressOn, TestOutcome,
};
use cargo_bisect_rustc::text::{str_contains, str_eq, str_lt, str_starts_with};

// A failing run whose stderr carries the ICE marker: regressed under
// NonCleanError, IceAlone and ErrorStatus alike; and a clean success is
// regressed under SuccessStatus but baseline under ErrorStatus.
#[test]
fn classifier_non_clean_error_with_ice() {
    let stderr = "thread 'rustc' panicked\nerror: internal compiler error: oops";
    assert_eq!(
        outcome_of_output(RegressOn::NonCleanError, false, stderr),
        TestOutcome::Regressed
    );
    assert_eq!(
        outcome_of_output(RegressOn::IceAlone, false, stderr),
        TestOutcome::Regressed
    );
    assert_eq!(
        outcome_of_output(RegressOn::ErrorStatus, false, stderr),
        TestOutcome::Regressed
    );
    assert_eq!(
        outcome_of_output(RegressOn::SuccessStatus, true, ""),
        TestOutcome::Regressed
    );
    assert_eq!(
        outcome_of_output(RegressOn::ErrorStatus, true, ""),
        TestOutcome::Baseline
    );
}

#[test]
fn classifier_not_ice_and_clean_failure() {
    let clean = "error[E0308]: mismatched types";
    assert_eq!(
        outcome_of_output(RegressOn::NonCleanError, false, clean),
        TestOutcome::Baseline
    );
    assert_eq!(
        outcome_of_output(RegressOn::NotIce, false, clean),
        TestOutcome::Regressed
    );
    let overflow = "thread 'rustc' has overflowed its stack";
    assert_eq!(
        outcome_of_output(RegressOn::NotIce, false, overflow),
        TestOutcome::Baseline
    );
    assert_eq!(
        outcome_of_output(RegressOn::IceAlone, true, overflow),
        TestOutcome::Regressed
    );
}

#[test]
fn ice_markers_found() {
    assert!(saw_ice("xx error: internal compiler error yy"));
    assert!(saw_ice("thread 'main' has overflowed its stack"));
    assert!(!saw_ice("error: expected one of `,` or `}`"));
    assert!(!saw_ice(""));
}

#[test]
fn must_process_stderr_table() {
    assert!(!RegressOn::ErrorStatus.must_process_stderr());
    assert!(!RegressOn::SuccessStatus.must_process_stderr());
    assert!(RegressOn::IceAlone.must_process_stderr());
    assert!(RegressOn::NotIce.must_process_stderr());
    assert!(RegressOn::NonCleanError.must_process_stderr());
}

#[test]
fn outcome_to_satisfies() {
    assert_eq!(satisfies_of_outcome(TestOutcome::Regressed), Satisfies::Yes);
    assert_eq!(satisfies_of_outcome(TestOutcome::Baseline), Satisfies::No);
}

#[test]
fn text_utilities() {
    assert!(str_contains("abcdef", "cde"));
    assert!(str_contains("abc", ""));
    assert!(!str_contains("abc", "abcd"));
    assert!(str_eq("same", "same"));
    assert!(!str_eq("same", "sameish"));
    assert!(str_starts_with("927c55d8", "927c"));
    assert!(!str_starts_with("927c", "927c55d8"));
    assert!(str_lt("aarch64", "x86_64"));
    assert!(!str_lt("x86_64", "aarch64"));
    assert!(str_lt("abc", "abcd"));
    assert!(!str_lt("abc", "abc"));
}
