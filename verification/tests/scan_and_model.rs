use cargo_bisect_rustc::dates::{parse_date, Day};
use cargo_bisect_rustc::errors::BisectError;
use cargo_bisect_rustc::outcome::TestOutcome;
use cargo_bisect_rustc::scanner::{NightlyFinderIter, NightlyScan, ProbeEvent, ScanStep};
use cargo_bisect_rustc::toolchains::{
    canonical_targets, check_commits_sorted, commits_to_toolchains, filter_retention,
    prepare_ci_commits, toolchains_between, Commit, ToolchainSpec,
};
use cargo_bisect_rustc::validate::{
    should_remove_toolchain, validate_dir, validate_file, validate_host, Access, RepoAccessor,
};

#[test]
fn test_nightly_finder_iterator() {
    let start_date = parse_date("2019-01-01").unwrap();

    let mut iter = NightlyFinderIter::new(start_date);

    for i in [2, 4, 6, 8, 15, 22, 29, 36, 43, 50, 64, 78] {
        let date = iter.next();
        assert_eq!(Day { num: start_date.num - i }, date)
    }
}

#[test]
fn test_validate_dir() {
    let current_dir = ".";
    assert!(validate_dir(current_dir).is_ok());
    let main = "src/main.rs";
    assert!(
        validate_dir(main).is_err(),
        "{}",
        validate_dir(main).unwrap_err()
    )
}

#[test]
fn test_validate_file() {
    let current_dir = ".";
    assert!(validate_file(current_dir).is_err());
    // the crate root of a library: the path is adapted to this layout
    let main = "src/lib.rs";
    assert!(
        validate_file(main).is_ok(),
        "{}",
        validate_dir(main).unwrap_err()
    )
}

#[test]
fn preservation_keeps_real_installs_only() {
    assert!(should_remove_toolchain(false, false));
    assert!(should_remove_toolchain(false, true));
    assert!(!should_remove_toolchain(true, false));
    // a linked toolchain is unlinked even under preservation
    assert!(should_remove_toolchain(true, true));
}

#[test]
fn host_triple_must_be_known() {
    assert!(validate_host("x86_64-unknown-linux-gnu").is_ok());
    assert!(validate_host("unknown").is_err());
}

#[test]
fn access_selects_accessor() {
    assert_eq!(Access::Checkout.repo(), RepoAccessor::LocalGit);
    assert_eq!(Access::Github.repo(), RepoAccessor::GithubApi);
}

#[test]
fn scanner_discovers_range() {
    let end = parse_date("2019-03-10").unwrap();
    let cutoff = parse_date("2015-10-20").unwrap();
    let mut scan = NightlyScan::new(end, end, false, cutoff);
    let mut day = match scan.start_action() {
        ScanStep::Probe(d) => d,
        _ => panic!("expected a probe"),
    };
    assert_eq!(day, end);
    // two regressed probes, then a missing artifact, then baseline
    for _ in 0..2 {
        match scan.step(ProbeEvent::Outcome(TestOutcome::Regressed)) {
            ScanStep::Probe(d) => day = d,
            _ => panic!("expected a probe"),
        }
    }
    assert_eq!(day.num, end.num - 4);
    match scan.step(ProbeEvent::NotFound) {
        ScanStep::Probe(d) => day = d,
        _ => panic!("expected a probe"),
    }
    // a missing artifact rolls back one day without advancing the stride
    assert_eq!(day.num, end.num - 5);
    match scan.step(ProbeEvent::Outcome(TestOutcome::Baseline)) {
        ScanStep::Found {
            first_success,
            last_failure,
        } => {
            assert_eq!(first_success.num, end.num - 5);
            assert_eq!(last_failure.num, end.num - 2);
        }
        _ => panic!("expected the range"),
    }
}

#[test]
fn scanner_pinned_start_errors() {
    let end = parse_date("2019-03-10").unwrap();
    let cutoff = parse_date("2015-10-20").unwrap();
    let mut scan = NightlyScan::new(end, end, true, cutoff);
    match scan.step(ProbeEvent::Outcome(TestOutcome::Regressed)) {
        ScanStep::Fail(e) => assert_eq!(e, BisectError::StartRegressed),
        _ => panic!("expected a failure"),
    }
    let mut scan2 = NightlyScan::new(end, end, true, cutoff);
    match scan2.step(ProbeEvent::NotFound) {
        ScanStep::Fail(e) => assert_eq!(e, BisectError::NightlyMissing),
        _ => panic!("expected a failure"),
    }
    let mut scan3 = NightlyScan::new(end, end, false, cutoff);
    match scan3.step(ProbeEvent::Failed) {
        ScanStep::Fail(e) => assert_eq!(e, BisectError::InstallFailed),
        _ => panic!("expected a failure"),
    }
}

#[test]
fn targets_are_canonical() {
    let host = "x86_64-unknown-linux-gnu".to_string();
    let other = "aarch64-apple-darwin".to_string();
    assert_eq!(canonical_targets(&host, &host), vec![host.clone()]);
    assert_eq!(
        canonical_targets(&host, &other),
        vec![other.clone(), host.clone()]
    );
    assert_eq!(
        canonical_targets(&other, &host),
        vec![other.clone(), host.clone()]
    );
}

#[test]
fn nightly_range_enumeration() {
    let a = parse_date("2019-01-30").unwrap();
    let b = parse_date("2019-02-02").unwrap();
    let host = "x86_64-unknown-linux-gnu".to_string();
    let ts = toolchains_between(a, b, &host, &host);
    assert_eq!(ts.len(), 4);
    for (i, t) in ts.iter().enumerate() {
        assert_eq!(
            t.kind,
            ToolchainSpec::Nightly {
                date: Day { num: a.num + i as i64 }
            }
        );
        assert_eq!(t.host, host);
        assert_eq!(t.std_targets, vec![host.clone()]);
    }
}

fn commit(sha: &str, num: i64) -> Commit {
    Commit {
        sha: sha.to_string(),
        date: Day { num },
        summary: "one-line summary".to_string(),
    }
}

#[test]
fn retention_window() {
    let today = Day { num: 1000 };
    let commits = vec![
        commit("old", 1000 - 200),
        commit("edge", 1000 - 167),
        commit("kept", 1000 - 166),
        commit("new", 1000 - 1),
    ];
    let kept = filter_retention(&commits, today);
    let shas: Vec<&str> = kept.iter().map(|c| c.sha.as_str()).collect();
    assert_eq!(shas, vec!["kept", "new"]);
}

#[test]
fn ci_commit_list_validation() {
    let today = Day { num: 1000 };
    let commits = vec![commit("aaa1", 990), commit("bbb2", 991), commit("ccc3", 992)];
    assert!(check_commits_sorted(&commits));
    let kept = prepare_ci_commits(&commits, "ccc3", today).unwrap();
    assert_eq!(kept.len(), 3);

    let unsorted = vec![commit("aaa1", 992), commit("bbb2", 991)];
    assert!(!check_commits_sorted(&unsorted));

    let stale = vec![commit("aaa1", 100), commit("bbb2", 101)];
    assert_eq!(
        prepare_ci_commits(&stale, "bbb2", today),
        Err(BisectError::RetentionExhausted)
    );

    assert_eq!(
        prepare_ci_commits(&commits, "zzz9", today),
        Err(BisectError::EndpointMismatch)
    );
    // the default branch reference skips the endpoint check
    assert!(prepare_ci_commits(&commits, "origin/master", today).is_ok());
}

#[test]
fn commits_become_toolchains() {
    let host = "x86_64-unknown-linux-gnu".to_string();
    let commits = vec![commit("aaa1", 990), commit("bbb2", 991)];
    let ts = commits_to_toolchains(&commits, true, &host, &host);
    assert_eq!(ts.len(), 2);
    assert_eq!(
        ts[0].kind,
        ToolchainSpec::Ci {
            commit: "aaa1".to_string(),
            alt: true
        }
    );
    assert_eq!(
        ts[1].kind,
        ToolchainSpec::Ci {
            commit: "bbb2".to_string(),
            alt: true
        }
    );
}
