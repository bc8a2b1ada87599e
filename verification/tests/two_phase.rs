use cargo_bisect_rustc::bounds::Bound;
use cargo_bisect_rustc::dates::{today_day, Day};
use cargo_bisect_rustc::errors::BisectError;
use cargo_bisect_rustc::orchestrate::{Action, Bisection, Event, SearchConfig};
use cargo_bisect_rustc::outcome::TestOutcome;
use cargo_bisect_rustc::report::{commit_url, compare_url, final_report_urls, manifest_url};
use cargo_bisect_rustc::scanner::ProbeEvent;
use cargo_bisect_rustc::toolchains::{Commit, ToolchainSpec};

fn cfg_with(start: Option<Bound>, end: Option<Bound>, by_commit: bool, alt: bool) -> SearchConfig {
    SearchConfig::assemble(
        start,
        end,
        by_commit,
        alt,
        "x86_64-unknown-linux-gnu".to_string(),
        "x86_64-unknown-linux-gnu".to_string(),
        None,
    )
    .unwrap()
}

fn outcome(o: TestOutcome) -> Event {
    Event::Probe(ProbeEvent::Outcome(o))
}

fn mk_commit(sha: &str, date: Day) -> Commit {
    Commit {
        sha: sha.to_string(),
        date,
        summary: "one-line summary".to_string(),
    }
}

fn expect_probe_nightly(a: &Action) -> Day {
    match a {
        Action::ProbeNightly(d) => *d,
        _ => panic!("expected a nightly probe"),
    }
}

fn expect_probe_index(a: &Action) -> usize {
    match a {
        Action::ProbeIndex(i) => *i,
        _ => panic!("expected an indexed probe"),
    }
}

// Three nightlies, the last regressed; between the boundary nightly and
// its predecessor three CI commits, of which the middle one introduced
// the regression. The machine finds the boundary nightly, then the
// regressing commit, and the report names the right URLs.
#[test]
fn two_phase_end_to_end() {
    let today = today_day();
    let n3 = today.pred();
    let n2 = n3.pred();
    let n1 = n2.pred();

    let cfg = cfg_with(None, Some(Bound::Date(n3)), false, false);
    let (mut m, a0) = Bisection::new(cfg);

    // coarse scan: N3 regressed, stride of two days lands on N1, baseline
    assert_eq!(expect_probe_nightly(&a0), n3);
    let a1 = m.step(outcome(TestOutcome::Regressed));
    assert_eq!(expect_probe_nightly(&a1), n1);
    let a2 = m.step(outcome(TestOutcome::Baseline));
    // no bisection underway yet: no progress line
    assert_eq!(m.progress(), None);
    // the end of the range is confirmed regressed
    assert_eq!(expect_probe_nightly(&a2), n3);
    let a3 = m.step(outcome(TestOutcome::Regressed));

    // nightly bisection over [N1, N2, N3]
    assert_eq!(expect_probe_index(&a3), 1);
    // two candidates remain after this probe, roughly two steps
    assert_eq!(m.progress(), Some((2, 2)));
    assert_eq!(
        m.toolchain_at(1).kind,
        ToolchainSpec::Nightly { date: n2 }
    );
    let a4 = m.step(outcome(TestOutcome::Baseline));
    assert_eq!(expect_probe_index(&a4), 2);
    assert_eq!(m.progress(), Some((0, 0)));
    let a5 = m.step(outcome(TestOutcome::Regressed));
    // the boundary is the last element: it is probed once more
    assert_eq!(expect_probe_index(&a5), 2);
    let a6 = m.step(outcome(TestOutcome::Regressed));

    // phase one settled on N3; the one-day window is resolved to commits
    let nightly = m.nightly_result.as_ref().unwrap();
    assert_eq!(nightly.found, 2);
    assert!(!nightly.inconclusive);
    assert_eq!(
        nightly.searched[nightly.found].kind,
        ToolchainSpec::Nightly { date: n3 }
    );
    match &a6 {
        Action::ResolveDate(d) => assert_eq!(*d, n2),
        _ => panic!("expected a manifest fetch"),
    }
    let a7 = m.step(Event::Sha("c1".to_string()));
    match &a7 {
        Action::ResolveDate(d) => assert_eq!(*d, n3),
        _ => panic!("expected a manifest fetch"),
    }
    let a8 = m.step(Event::Sha("c3".to_string()));
    match &a8 {
        Action::ResolveRef(r) => assert_eq!(r, "c3"),
        _ => panic!("expected a reference lookup"),
    }
    let a9 = m.step(Event::ResolvedCommit(mk_commit("c3", today.pred())));
    match &a9 {
        Action::FetchCommits { start, end } => {
            assert_eq!(start, "c1");
            assert_eq!(end, "c3");
        }
        _ => panic!("expected the commit range"),
    }
    let commits = vec![
        mk_commit("c1", Day { num: today.num - 3 }),
        mk_commit("c2", Day { num: today.num - 2 }),
        mk_commit("c3", Day { num: today.num - 1 }),
    ];
    let a10 = m.step(Event::Commits(commits));

    // CI endpoints: first passes, last reproduces
    assert_eq!(expect_probe_index(&a10), 0);
    let a11 = m.step(outcome(TestOutcome::Baseline));
    assert_eq!(expect_probe_index(&a11), 2);
    let a12 = m.step(outcome(TestOutcome::Regressed));

    // CI bisection over [c1, c2, c3]
    assert_eq!(expect_probe_index(&a12), 1);
    assert_eq!(m.progress(), Some((2, 2)));
    let a13 = m.step(outcome(TestOutcome::Regressed));
    assert_eq!(expect_probe_index(&a13), 0);
    let a14 = m.step(outcome(TestOutcome::Baseline));
    match a14 {
        Action::Stop(None) => {}
        _ => panic!("expected a clean stop"),
    }

    assert!(!m.not_found);
    let ci = m.ci_result.as_ref().unwrap();
    assert_eq!(ci.found, 1);
    assert_eq!(
        ci.searched[ci.found].kind,
        ToolchainSpec::Ci {
            commit: "c2".to_string(),
            alt: false
        }
    );
    let (range_url, regressed_url) = final_report_urls(ci);
    assert_eq!(
        range_url,
        "https://github.com/rust-lang/rust/compare/c1...c3"
    );
    assert_eq!(
        regressed_url,
        "https://github.com/rust-lang/rust/commit/c2"
    );
}

// The same search re-run on the same answers gives the same boundary.
#[test]
fn rerun_is_identical() {
    let today = today_day();
    let n3 = today.pred();
    let run = || {
        let cfg = cfg_with(None, Some(Bound::Date(n3)), false, false);
        let (mut m, a0) = Bisection::new(cfg);
        let mut action = a0;
        let answers = |a: &Action, m: &Bisection| -> Option<Event> {
            match a {
                Action::ProbeNightly(_) => {
                    let d = expect_probe_nightly(a);
                    Some(outcome(if d.num >= n3.num - 1 {
                        TestOutcome::Regressed
                    } else {
                        TestOutcome::Baseline
                    }))
                }
                Action::ProbeIndex(i) => {
                    let t = m.toolchain_at(*i);
                    match &t.kind {
                        ToolchainSpec::Nightly { date } => Some(outcome(if date.num >= n3.num - 1 {
                            TestOutcome::Regressed
                        } else {
                            TestOutcome::Baseline
                        })),
                        ToolchainSpec::Ci { commit, .. } => Some(outcome(if commit == "c1" {
                            TestOutcome::Baseline
                        } else {
                            TestOutcome::Regressed
                        })),
                    }
                }
                Action::ResolveDate(d) => Some(Event::Sha(if d.num >= n3.num - 1 {
                    "c2".to_string()
                } else {
                    "c1".to_string()
                })),
                Action::ResolveRef(r) => {
                    Some(Event::ResolvedCommit(mk_commit(r, Day { num: today.num - 1 })))
                }
                Action::FetchCommits { .. } => Some(Event::Commits(vec![
                    mk_commit("c1", Day { num: today.num - 2 }),
                    mk_commit("c2", Day { num: today.num - 1 }),
                ])),
                Action::Stop(_) => None,
            }
        };
        loop {
            match answers(&action, &m) {
                Some(ev) => action = m.step(ev),
                None => break,
            }
        }
        (
            m.nightly_result.as_ref().map(|r| r.found),
            m.ci_result.as_ref().map(|r| r.found),
            m.not_found,
        )
    };
    assert_eq!(run(), run());
}

#[test]
fn mixed_bounds_stop_the_search() {
    let cfg = cfg_with(
        Some(Bound::Commit("deadbeef".to_string())),
        Some(Bound::Date(today_day().pred())),
        false,
        false,
    );
    let (_, action) = Bisection::new(cfg);
    match action {
        Action::Stop(Some(e)) => assert_eq!(e, BisectError::MixedBounds),
        _ => panic!("expected a stop"),
    }
}

#[test]
fn alt_profile_needs_commits() {
    let cfg = cfg_with(None, Some(Bound::Date(today_day().pred())), false, true);
    let (_, action) = Bisection::new(cfg);
    match action {
        Action::Stop(Some(e)) => assert_eq!(e, BisectError::AltNotSupported),
        _ => panic!("expected a stop"),
    }
}

#[test]
fn future_end_stops_the_search() {
    let cfg = cfg_with(None, Some(Bound::Date(today_day().succ())), false, false);
    let (_, action) = Bisection::new(cfg);
    match action {
        Action::Stop(Some(e)) => assert_eq!(e, BisectError::EndInFuture),
        _ => panic!("expected a stop"),
    }
}

#[test]
fn end_must_reproduce() {
    let today = today_day();
    let n = today.pred();
    let cfg = cfg_with(None, Some(Bound::Date(n)), false, false);
    let (mut m, a0) = Bisection::new(cfg);
    assert_eq!(expect_probe_nightly(&a0), n);
    // the very first nightly probes baseline: the range collapses to [n, n]
    let a1 = m.step(outcome(TestOutcome::Baseline));
    assert_eq!(expect_probe_nightly(&a1), n);
    // ... and its end does not reproduce
    let a2 = m.step(outcome(TestOutcome::Baseline));
    match a2 {
        Action::Stop(Some(e)) => assert_eq!(e, BisectError::EndNotRegressed),
        _ => panic!("expected a stop"),
    }
}

#[test]
fn failed_reprobe_reports_not_found() {
    let today = today_day();
    let n = today.pred();
    let cfg = cfg_with(None, Some(Bound::Date(n)), false, false);
    let (mut m, _) = Bisection::new(cfg);
    let _ = m.step(outcome(TestOutcome::Baseline)); // scan: baseline at once
    let a = m.step(outcome(TestOutcome::Regressed)); // end confirmed
    // single-element range: the bisector settles on its only index,
    // which is the last, so it is re-probed — and now contradicts
    assert_eq!(expect_probe_index(&a), 0);
    let b = m.step(outcome(TestOutcome::Regressed));
    assert_eq!(expect_probe_index(&b), 0);
    let c = m.step(outcome(TestOutcome::Baseline));
    match c {
        Action::Stop(None) => {}
        _ => panic!("expected a stop"),
    }
    assert!(m.not_found);
    assert!(m.ci_result.is_none());
}

#[test]
fn ci_only_with_commit_bounds() {
    let today = today_day();
    let cfg = cfg_with(
        Some(Bound::Commit("aaa1".to_string())),
        Some(Bound::Commit("ccc3".to_string())),
        false,
        false,
    );
    let (mut m, a0) = Bisection::new(cfg);
    match &a0 {
        Action::ResolveRef(r) => assert_eq!(r, "ccc3"),
        _ => panic!("expected a reference lookup"),
    }
    let a1 = m.step(Event::ResolvedCommit(mk_commit("ccc3", today.pred())));
    match &a1 {
        Action::FetchCommits { start, end } => {
            assert_eq!(start, "aaa1");
            assert_eq!(end, "ccc3");
        }
        _ => panic!("expected the commit range"),
    }
    // an unsorted list is a hard error
    let a2 = m.step(Event::Commits(vec![
        mk_commit("aaa1", Day { num: today.num - 1 }),
        mk_commit("bbb2", Day { num: today.num - 2 }),
        mk_commit("ccc3", Day { num: today.num - 1 }),
    ]));
    match a2 {
        Action::Stop(Some(e)) => assert_eq!(e, BisectError::CommitsUnordered),
        _ => panic!("expected a stop"),
    }
}

#[test]
fn accessor_failure_stops_the_search() {
    let cfg = cfg_with(None, Some(Bound::Commit("abc1".to_string())), false, false);
    let (mut m, a0) = Bisection::new(cfg);
    match &a0 {
        Action::ResolveRef(r) => assert_eq!(r, "abc1"),
        _ => panic!("expected a reference lookup"),
    }
    let a1 = m.step(Event::Failed);
    match a1 {
        Action::Stop(Some(e)) => assert_eq!(e, BisectError::AccessorFailed),
        _ => panic!("expected a stop"),
    }
}

#[test]
fn url_shapes() {
    assert_eq!(
        compare_url("aaa", "bbb"),
        "https://github.com/rust-lang/rust/compare/aaa...bbb"
    );
    assert_eq!(
        commit_url("abc"),
        "https://github.com/rust-lang/rust/commit/abc"
    );
    assert_eq!(
        manifest_url("2019-01-01"),
        "https://static.rust-lang.org/dist/2019-01-01/channel-rust-nightly-git-commit-hash.txt"
    );
}

#[test]
fn by_commit_converts_date_bounds() {
    let today = today_day();
    let s = today.pred().pred();
    let e = today.pred();
    let cfg = cfg_with(Some(Bound::Date(s)), Some(Bound::Date(e)), true, false);
    let (mut m, a0) = Bisection::new(cfg);
    match &a0 {
        Action::ResolveDate(d) => assert_eq!(*d, s),
        _ => panic!("expected a manifest fetch"),
    }
    let a1 = m.step(Event::Sha("aaa1".to_string()));
    match &a1 {
        Action::ResolveDate(d) => assert_eq!(*d, e),
        _ => panic!("expected a manifest fetch"),
    }
    let a2 = m.step(Event::Sha("ccc3".to_string()));
    match &a2 {
        Action::ResolveRef(r) => assert_eq!(r, "ccc3"),
        _ => panic!("expected a reference lookup"),
    }
}

#[test]
fn search_cannot_reach_before_first_published_nightly() {
    let cfg = cfg_with(
        None,
        Some(Bound::Date(cargo_bisect_rustc::dates::parse_date("2015-10-01").unwrap())),
        false,
        false,
    );
    let (_, action) = Bisection::new(cfg);
    match action {
        Action::Stop(Some(e)) => assert_eq!(e, BisectError::NoNightlyBuilt),
        _ => panic!("expected a stop"),
    }
}

#[test]
fn inverted_range_is_empty() {
    let today = today_day();
    let s = today;
    let e = Day { num: today.num - 5 };
    let cfg = cfg_with(Some(Bound::Date(s)), Some(Bound::Date(e)), false, false);
    let (mut m, a0) = Bisection::new(cfg);
    // the caller is expected to reject such bounds up front; the machine
    // still answers them without probing a bogus range
    assert_eq!(expect_probe_nightly(&a0), s);
    let a1 = m.step(outcome(TestOutcome::Baseline));
    assert_eq!(expect_probe_nightly(&a1), e);
    let a2 = m.step(outcome(TestOutcome::Regressed));
    match a2 {
        Action::Stop(Some(err)) => assert_eq!(err, BisectError::EmptyRange),
        _ => panic!("expected a stop"),
    }
}
