//! The two-phase orchestrator, as a state machine over plain events.
//!
//! The caller (who owns the installer, the network and the repository)
//! asks for the next `Action`, performs it, and feeds the observed
//! `Event` back through `step`. The machine validates the bounds, runs
//! the coarse nightly scan, confirms the right endpoint, bisects the
//! nightly range, hands the one-day commit window to the CI phase,
//! bisects the commit list, and re-probes a boundary that sits on the
//! end of its sequence before trusting it.

use vstd::prelude::*;

use crate::bounds::{
    bound_kinds, get_end_date, get_start_date, spec_bound_kinds, spec_end_date, spec_start_date,
    Bound, BoundKinds,
};
use crate::dates::{ymd_to_day, Day};
use crate::errors::BisectError;
use crate::least_satisfying::{Bisector, Satisfies};
use crate::outcome::{satisfies_of_outcome, TestOutcome};
use crate::scanner::{spec_stride, NightlyScan, ProbeEvent, ScanStep};
use crate::toolchains::{
    check_commits_sorted, commits_to_toolchains, prepare_ci_commits, toolchains_between, Commit,
    Toolchain, ToolchainSpec,
};
use crate::text::str_eq;

verus! {

/// The first commit whose build artifacts the upstream store ever kept:
/// the default left bound of a commit-level search.
pub fn epoch_commit() -> (r: &'static str)
    ensures
        r@ == "927c55d86b0be44337f37cf5b0a76fb8ba86e06c"@,
{
    "927c55d86b0be44337f37cf5b0a76fb8ba86e06c"
}

/// Everything the search needs to know at the start, as plain values.
pub struct SearchConfig {
    pub start: Option<Bound>,
    pub end: Option<Bound>,
    pub by_commit: bool,
    pub alt: bool,
    pub host: String,
    pub target: String,
    pub today: Day,
    pub default_nightly: Option<Day>,
    /// No standard-library packages exist upstream on or before this
    /// day; the nightly scan never probes past it.
    pub cutoff: Day,
}

pub open spec fn day_in_range(d: Day) -> bool {
    -0x8000_0000 <= d.num <= 0x7fff_ffff
}

/// A forced commit-level search over a dated pair: both days must be
/// rewritten to their nightly commits before the commit phase can run.
pub open spec fn spec_converts_dates(cfg: SearchConfig) -> bool {
    &&& cfg.by_commit
    &&& spec_bound_kinds(cfg.start, cfg.end) == Ok::<BoundKinds, BisectError>(BoundKinds::Dates)
    &&& cfg.start is Some
    &&& cfg.end is Some
}

/// The searches that run the commit phase only: both bounds commits,
/// a bare commit-level request without bounds, or a convertible dated
/// pair.
pub open spec fn spec_ci_only(cfg: SearchConfig) -> bool {
    ||| spec_bound_kinds(cfg.start, cfg.end) == Ok::<BoundKinds, BisectError>(BoundKinds::Commits)
    ||| (cfg.by_commit && spec_bound_kinds(cfg.start, cfg.end) == Ok::<BoundKinds, BisectError>(
        BoundKinds::Unbounded,
    ))
    ||| spec_converts_dates(cfg)
}

/// The left reference of a commit-level search: the given commit, or
/// the first commit whose artifacts the store ever kept.
pub open spec fn spec_start_ref(start: Option<Bound>) -> Seq<char> {
    match start {
        Some(Bound::Commit(c)) => c@,
        _ => "927c55d86b0be44337f37cf5b0a76fb8ba86e06c"@,
    }
}

/// The right reference of a commit-level search: the given commit, or
/// the default branch tip.
pub open spec fn spec_end_ref(end: Option<Bound>) -> Seq<char> {
    match end {
        Some(Bound::Commit(c)) => c@,
        _ => "origin/master"@,
    }
}

impl SearchConfig {
    pub open spec fn wf(self) -> bool {
        &&& day_in_range(self.today)
        &&& day_in_range(self.cutoff)
        &&& (self.default_nightly matches Some(d) ==> day_in_range(d))
        &&& (self.start matches Some(Bound::Date(d)) ==> day_in_range(d))
        &&& (self.end matches Some(Bound::Date(d)) ==> day_in_range(d))
    }

    /// Assemble a configuration: the current day is read from the
    /// clock, and the scan cutoff is the last day before the upstream
    /// store carried standard-library packages. A dated bound or a
    /// default nightly outside the representable day range is refused.
    pub fn assemble(
        start: Option<Bound>,
        end: Option<Bound>,
        by_commit: bool,
        alt: bool,
        host: String,
        target: String,
        default_nightly: Option<Day>,
    ) -> (r: Option<SearchConfig>)
        ensures
            r matches Some(cfg) ==> cfg.wf() && cfg.start == start && cfg.end == end
                && cfg.by_commit == by_commit && cfg.alt == alt && cfg.default_nightly
                == default_nightly && cfg.host == host && cfg.target == target
                && cfg.cutoff.num == crate::dates::day_number_of(2015, 10, 20),
            r is None <==> !({
                &&& (start matches Some(Bound::Date(d)) ==> day_in_range(d))
                &&& (end matches Some(Bound::Date(d)) ==> day_in_range(d))
                &&& (default_nightly matches Some(d) ==> day_in_range(d))
            }),
    {
        let cutoff = match ymd_to_day(2015, 10, 20) {
            Some(d) => d,
            None => {
                proof {
                    assert(crate::dates::valid_md(2015, 10, 20));
                }
                vstd::pervasive::unreached()
            },
        };
        let ok_start = match &start {
            Some(Bound::Date(d)) => -0x8000_0000 <= d.num && d.num <= 0x7fff_ffff,
            _ => true,
        };
        let ok_end = match &end {
            Some(Bound::Date(d)) => -0x8000_0000 <= d.num && d.num <= 0x7fff_ffff,
            _ => true,
        };
        let ok_dflt = match &default_nightly {
            Some(d) => -0x8000_0000 <= d.num && d.num <= 0x7fff_ffff,
            _ => true,
        };
        if !(ok_start && ok_end && ok_dflt) {
            return None;
        }
        let today = crate::dates::today_day();
        Some(
            SearchConfig {
                start,
                end,
                by_commit,
                alt,
                host,
                target,
                today,
                default_nightly,
                cutoff,
            },
        )
    }
}

/// What the caller must do next.
pub enum Action {
    /// Install and test the nightly of this day; feed back a probe
    /// event.
    ProbeNightly(Day),
    /// Install and test the toolchain at this index of the current
    /// search sequence; feed back a probe event.
    ProbeIndex(usize),
    /// Fetch the nightly manifest of this day and feed back the commit
    /// hash it names.
    ResolveDate(Day),
    /// Ask the repository accessor to resolve this reference; feed back
    /// the commit.
    ResolveRef(String),
    /// Ask the accessor for the first-parent commit range; feed back
    /// the list.
    FetchCommits { start: String, end: String },
    /// The search is over: on `None` the result fields hold the
    /// answer, on `Some` the error says what went wrong.
    Stop(Option<BisectError>),
}

/// What the caller observed.
pub enum Event {
    /// The verdict of the probe that was asked for.
    Probe(ProbeEvent),
    /// The commit hash a manifest fetch returned.
    Sha(String),
    /// The commit an accessor reference lookup returned.
    ResolvedCommit(Commit),
    /// The commit range the accessor returned.
    Commits(Vec<Commit>),
    /// The fetch or lookup failed.
    Failed,
}

/// The outcome of one bisection: the probed sequence, the boundary
/// index, and whether the answer is only a guess because the probes
/// starved the search.
pub struct BisectionResult {
    pub searched: Vec<Toolchain>,
    pub found: usize,
    pub inconclusive: bool,
}

pub enum Phase {
    /// Converting a dated pair to commits for a forced commit-level
    /// search: waiting for the start day's hash.
    ByCommitStart { start_day: Day, end_day: Day },
    /// ... and for the end day's hash.
    ByCommitEnd { end_day: Day, start_sha: String },
    /// Phase one: walking backwards for a passing nightly.
    Scanning(NightlyScan),
    /// Phase one: confirming that the end of the range reproduces.
    VerifyEnd { first_success: Day, last_failure: Day },
    /// Phase one: bisecting the nightly range.
    NightlyBisect(Bisector),
    /// Phase one: the boundary sat on the end of the range; probing it
    /// once more before trusting it.
    NightlyReprobe { found: usize, inconclusive: bool },
    /// Between phases: waiting for the hash of the day before the
    /// boundary nightly.
    ResolvePrev { boundary: Day },
    /// ... and of the boundary nightly itself.
    ResolveBound { boundary: Day, working: String },
    /// Phase two: waiting for the end reference to resolve to a commit.
    CiResolveEnd { start_ref: String, end_ref: String },
    /// Phase two: waiting for the commit list.
    CiFetchCommits { start_ref: String, end_sha: String },
    /// Phase two: confirming the first commit passes.
    CiVerifyStart,
    /// Phase two: confirming the last commit reproduces.
    CiVerifyEnd,
    /// Phase two: bisecting the commit list.
    CiBisect(Bisector),
    /// Phase two: re-probing a boundary on the end of the list.
    CiReprobe { found: usize, inconclusive: bool },
    Finished,
}

/// The whole search.
pub struct Bisection {
    pub cfg: SearchConfig,
    pub phase: Phase,
    /// The sequence the current phase probes by index.
    pub searched: Vec<Toolchain>,
    pub nightly_result: Option<BisectionResult>,
    pub ci_result: Option<BisectionResult>,
    /// The final re-probe contradicted the boundary: no regression was
    /// found in the range, and no report should be emitted.
    pub not_found: bool,
    pub failure: Option<BisectError>,
}

impl Bisection {
    /// The current search sequence holds nightly toolchains with
    /// representable days.
    pub open spec fn nightly_seq_ok(self) -> bool {
        forall|i: int|
            0 <= i < self.searched@.len() ==> (#[trigger] self.searched@[i]).kind is Nightly
                && day_in_range(self.searched@[i].kind->Nightly_date)
    }

    pub open spec fn inv(self) -> bool {
        &&& self.cfg.wf()
        &&& (self.phase matches Phase::Scanning(s) ==> s.wf())
        &&& (self.phase matches Phase::VerifyEnd { first_success, last_failure } ==> day_in_range(
            first_success,
        ) && day_in_range(last_failure))
        &&& (self.phase matches Phase::NightlyBisect(b) ==> b.inv() && b.n == self.searched@.len()
            && self.searched@.len() >= 1 && self.nightly_seq_ok())
        &&& (self.phase matches Phase::NightlyReprobe { found, .. } ==> found
            < self.searched@.len() && self.nightly_seq_ok())
        &&& (self.phase matches Phase::ResolvePrev { boundary } ==> day_in_range(boundary))
        &&& (self.phase matches Phase::ResolveBound { boundary, .. } ==> day_in_range(boundary))
        &&& (self.phase matches Phase::CiVerifyStart ==> self.searched@.len() >= 1)
        &&& (self.phase matches Phase::CiVerifyEnd ==> self.searched@.len() >= 1)
        &&& (self.phase matches Phase::CiBisect(b) ==> b.inv() && b.n == self.searched@.len()
            && self.searched@.len() >= 1)
        &&& (self.phase matches Phase::CiReprobe { found, .. } ==> found < self.searched@.len())
        &&& (self.nightly_result matches Some(r) ==> r.found < r.searched@.len())
        &&& (self.ci_result matches Some(r) ==> r.found < r.searched@.len())
    }

    /// Read a toolchain of the current search sequence.
    pub fn toolchain_at(&self, i: usize) -> (r: &Toolchain)
        requires
            i < self.searched@.len(),
        ensures
            r == self.searched@[i as int],
    {
        &self.searched[i]
    }

    /// The progress line to print before the next indexed probe while
    /// a bisection is underway: how many candidates remain in play
    /// after the one probed next, and the estimated steps left.
    pub fn progress(&self) -> (r: Option<(usize, usize)>)
        requires
            self.inv(),
        ensures
            self.phase matches Phase::NightlyBisect(b) ==> (b.lo < b.hi ==> (r matches Some(p)
                && p.0 == b.interval_len() - 1 && p.1 == crate::least_satisfying::log2_up(
                b.interval_len(),
            ))) && (b.lo >= b.hi ==> r is None),
            self.phase matches Phase::CiBisect(b) ==> (b.lo < b.hi ==> (r matches Some(p) && p.0
                == b.interval_len() - 1 && p.1 == crate::least_satisfying::log2_up(
                b.interval_len(),
            ))) && (b.lo >= b.hi ==> r is None),
            !(self.phase is NightlyBisect || self.phase is CiBisect) ==> r is None,
    {
        match &self.phase {
            Phase::NightlyBisect(b) | Phase::CiBisect(b) => {
                if b.lo < b.hi {
                    Some(b.progress())
                } else {
                    None
                }
            },
            _ => None,
        }
    }

    /// Start a search. The first action tells the caller what to do;
    /// a mixed pair of bounds, an alt request on a nightly search or a
    /// future dated bound stops it before any probe.
    pub fn new(cfg: SearchConfig) -> (r: (Bisection, Action))
        requires
            cfg.wf(),
        ensures
            r.0.inv(),
            r.0.cfg == cfg,
            (r.1 matches Action::ProbeIndex(i) ==> i < r.0.searched@.len()),
            (r.1 is Stop <==> r.0.phase is Finished),
            (r.1 matches Action::Stop(e) ==> e == r.0.failure),
            spec_bound_kinds(cfg.start, cfg.end) is Err ==> r.1 == Action::Stop(
                Some(BisectError::MixedBounds),
            ),
            // a convertible dated pair is first rewritten to commits
            spec_converts_dates(cfg) ==> (cfg.start matches Some(Bound::Date(sd)) ==> (cfg.end
                matches Some(Bound::Date(ed)) ==> r.0.phase == (Phase::ByCommitStart {
                start_day: sd,
                end_day: ed,
            }) && r.1 == Action::ResolveDate(sd))),
            // a commit-level search resolves its right reference first,
            // defaulting to the epoch commit and the branch tip
            spec_ci_only(cfg) && !spec_converts_dates(cfg) ==> (r.0.phase matches
                Phase::CiResolveEnd { start_ref, end_ref } && start_ref@ == spec_start_ref(
                cfg.start,
            ) && end_ref@ == spec_end_ref(cfg.end)) && (r.1 matches Action::ResolveRef(e) && e@
                == spec_end_ref(cfg.end)),
            // a date-first search rejects the alt profile and future
            // bounds before any probe, then starts the coarse scan at
            // the start day — unless that day already lies at or before
            // the cutoff
            spec_bound_kinds(cfg.start, cfg.end) is Ok && !spec_ci_only(cfg) ==> ({
                let start_date = spec_start_date(cfg.start, cfg.end, cfg.default_nightly, cfg.today);
                let end_date = spec_end_date(cfg.end, cfg.default_nightly, cfg.today);
                let start_future = cfg.start is Some && start_date.num > cfg.today.num;
                &&& (cfg.alt ==> r.1 == Action::Stop(Some(BisectError::AltNotSupported)))
                &&& (!cfg.alt && start_future ==> r.1 == Action::Stop(
                    Some(BisectError::StartInFuture),
                ))
                &&& (!cfg.alt && !start_future && end_date.num > cfg.today.num ==> r.1
                    == Action::Stop(Some(BisectError::EndInFuture)))
                &&& (!cfg.alt && !start_future && end_date.num <= cfg.today.num
                    && start_date.num > cfg.cutoff.num ==> (r.0.phase matches Phase::Scanning(s)
                    && s.current == start_date && s.last_failure == end_date && s.has_start == (
                cfg.start is Some) && s.cutoff == cfg.cutoff && s.iter.start_date == start_date
                    && s.iter.current_date == start_date) && r.1 == Action::ProbeNightly(
                    start_date,
                ))
                &&& (!cfg.alt && !start_future && end_date.num <= cfg.today.num
                    && start_date.num <= cfg.cutoff.num ==> r.1 == Action::Stop(
                    Some(BisectError::NoNightlyBuilt),
                ))
            }),
    {
        let mut b = Bisection {
            cfg,
            phase: Phase::Finished,
            searched: Vec::new(),
            nightly_result: None,
            ci_result: None,
            not_found: false,
            failure: None,
        };
        let kinds = match bound_kinds(&b.cfg.start, &b.cfg.end) {
            Ok(k) => k,
            Err(e) => {
                b.failure = Some(e);
                return (b, Action::Stop(Some(BisectError::MixedBounds)));
            },
        };
        let both_given = b.cfg.start.is_some() && b.cfg.end.is_some();
        let convert = b.cfg.by_commit && matches!(kinds, BoundKinds::Dates) && both_given;
        let ci_only = matches!(kinds, BoundKinds::Commits) || (b.cfg.by_commit && matches!(
            kinds,
            BoundKinds::Unbounded,
        )) || convert;
        if convert {
            let start_day = match &b.cfg.start {
                Some(Bound::Date(d)) => *d,
                _ => vstd::pervasive::unreached(),
            };
            let end_day = match &b.cfg.end {
                Some(Bound::Date(d)) => *d,
                _ => vstd::pervasive::unreached(),
            };
            b.phase = Phase::ByCommitStart { start_day, end_day };
            return (b, Action::ResolveDate(start_day));
        }
        if ci_only {
            let start_ref = match &b.cfg.start {
                Some(Bound::Commit(c)) => c.clone(),
                _ => epoch_commit().to_owned(),
            };
            let end_ref = match &b.cfg.end {
                Some(Bound::Commit(c)) => c.clone(),
                _ => "origin/master".to_owned(),
            };
            let action = Action::ResolveRef(end_ref.clone());
            b.phase = Phase::CiResolveEnd { start_ref, end_ref };
            return (b, action);
        }
        // nightly-first search
        if b.cfg.alt {
            b.failure = Some(BisectError::AltNotSupported);
            return (b, Action::Stop(Some(BisectError::AltNotSupported)));
        }
        let has_start = b.cfg.start.is_some();
        let start_date = get_start_date(
            &b.cfg.start,
            &b.cfg.end,
            b.cfg.default_nightly,
            b.cfg.today,
        );
        let end_date = get_end_date(&b.cfg.end, b.cfg.default_nightly, b.cfg.today);
        if has_start && start_date.num > b.cfg.today.num {
            b.failure = Some(BisectError::StartInFuture);
            return (b, Action::Stop(Some(BisectError::StartInFuture)));
        }
        if end_date.num > b.cfg.today.num {
            b.failure = Some(BisectError::EndInFuture);
            return (b, Action::Stop(Some(BisectError::EndInFuture)));
        }
        let scan = NightlyScan::new(start_date, end_date, has_start, b.cfg.cutoff);
        let first = scan.start_action();
        b.phase = Phase::Scanning(scan);
        match first {
            ScanStep::Probe(d) => (b, Action::ProbeNightly(d)),
            ScanStep::Fail(e) => {
                b.phase = Phase::Finished;
                b.failure = Some(e);
                (b, Action::Stop(Some(e)))
            },
            ScanStep::Found { .. } => vstd::pervasive::unreached(),
        }
    }

    /// Feed the observed event back and get the next action.
    #[verifier::rlimit(100)]
    pub fn step(&mut self, ev: Event) -> (r: Action)
        requires
            old(self).inv(),
            !(old(self).phase is Finished),
        ensures
            final(self).inv(),
            final(self).cfg == old(self).cfg,
            (r matches Action::ProbeIndex(i) ==> i < final(self).searched@.len()),
            (r is Stop <==> final(self).phase is Finished),
            (r matches Action::Stop(e) ==> e == final(self).failure),
            (old(self).phase matches Phase::VerifyEnd { first_success, last_failure } ==> (ev
                == Event::Probe(ProbeEvent::Outcome(TestOutcome::Regressed))
                && first_success.num <= last_failure.num ==> {
                &&& final(self).searched@.len() == last_failure.num - first_success.num + 1
                &&& forall|i: int|
                    0 <= i < final(self).searched@.len()
                        ==> (#[trigger] final(self).searched@[i]).kind
                        == (ToolchainSpec::Nightly {
                        date: Day { num: (first_success.num + i) as i64 },
                    }) && final(self).searched@[i].host@ == old(self).cfg.host@
                &&& (final(self).phase matches Phase::NightlyBisect(b2)
                    && b2.n == final(self).searched@.len() && b2.lo == 0 && b2.hi == b2.n
                    && !b2.best_found
                    && (r matches Action::ProbeIndex(j) && Some(j) == b2.spec_next_probe()))
            })),
            // a scan that found a passing nightly moves on to confirm
            // that the end of the range still reproduces
            (old(self).phase matches Phase::Scanning(s) ==> (ev == Event::Probe(
                ProbeEvent::Outcome(TestOutcome::Baseline),
            ) && s.spec_action() == ScanStep::Probe(s.current) ==> final(self).phase
                == (Phase::VerifyEnd { first_success: s.current, last_failure: s.last_failure })
                && r == Action::ProbeNightly(s.last_failure))),
            // an end of range that does not reproduce is an error
            (old(self).phase is VerifyEnd && ev == Event::Probe(
                ProbeEvent::Outcome(TestOutcome::Baseline),
            ) ==> final(self).failure == Some(BisectError::EndNotRegressed)),
            // a first commit that already reproduces, or a last commit
            // that does not, is an error
            (old(self).phase is CiVerifyStart && ev == Event::Probe(
                ProbeEvent::Outcome(TestOutcome::Regressed),
            ) ==> final(self).failure == Some(BisectError::StartRegressed)),
            (old(self).phase is CiVerifyEnd && ev == Event::Probe(
                ProbeEvent::Outcome(TestOutcome::Baseline),
            ) ==> final(self).failure == Some(BisectError::EndNotRegressed)),
            // a boundary on the end of its sequence is only trusted if
            // its re-probe still answers regressed
            ((old(self).phase is NightlyReprobe || old(self).phase is CiReprobe) && ev
                != Event::Probe(ProbeEvent::Outcome(TestOutcome::Regressed))
                ==> final(self).not_found && final(self).phase is Finished),
            // ... and once it does, the phase's result is settled
            (old(self).phase matches Phase::NightlyReprobe { found, inconclusive } ==> (ev
                == Event::Probe(ProbeEvent::Outcome(TestOutcome::Regressed))
                ==> (final(self).nightly_result matches Some(res) && res.found == found
                    && res.inconclusive == inconclusive && res.searched == old(self).searched)
                && final(self).phase is ResolvePrev && (r is ResolveDate))),
            (old(self).phase matches Phase::CiReprobe { found, inconclusive } ==> (ev
                == Event::Probe(ProbeEvent::Outcome(TestOutcome::Regressed))
                ==> (final(self).ci_result matches Some(res) && res.found == found
                    && res.inconclusive == inconclusive && res.searched == old(self).searched)
                && final(self).phase is Finished)),
            // while a bisection is underway, every transition is a
            // legal engine step on the probed index's verdict
            (old(self).phase matches Phase::NightlyBisect(b) ==> (ev matches Event::Probe(pe)
                ==> (b.spec_next_probe() matches Some(i) ==> ({
                let v = spec_verdict(pe);
                &&& (final(self).phase matches Phase::NightlyBisect(b2)
                    ==> Bisector::spec_recorded(b, i, v, b2) && (r matches Action::ProbeIndex(j)
                        && Some(j) == b2.spec_next_probe()))
                &&& (final(self).phase matches Phase::NightlyReprobe { found, .. } ==> exists|
                    b2: Bisector,
                |
                    #[trigger] Bisector::spec_recorded(b, i, v, b2) && b2.spec_next_probe()
                        is None && found == b2.spec_result())
                &&& (final(self).phase is ResolvePrev ==> exists|b2: Bisector|
                    #[trigger] Bisector::spec_recorded(b, i, v, b2) && b2.spec_next_probe()
                        is None && (final(self).nightly_result matches Some(res) && res.found
                        == b2.spec_result()))
            })))),
            (old(self).phase matches Phase::CiBisect(b) ==> (ev matches Event::Probe(pe) ==> (
            b.spec_next_probe() matches Some(i) ==> ({
                let v = spec_verdict(pe);
                &&& (final(self).phase matches Phase::CiBisect(b2) ==> Bisector::spec_recorded(
                    b,
                    i,
                    v,
                    b2,
                ) && (r matches Action::ProbeIndex(j) && Some(j) == b2.spec_next_probe()))
                &&& (final(self).phase matches Phase::CiReprobe { found, .. } ==> exists|
                    b2: Bisector,
                |
                    #[trigger] Bisector::spec_recorded(b, i, v, b2) && b2.spec_next_probe()
                        is None && found == b2.spec_result())
                &&& (final(self).phase is Finished ==> exists|b2: Bisector|
                    #[trigger] Bisector::spec_recorded(b, i, v, b2) && b2.spec_next_probe()
                        is None && (final(self).ci_result matches Some(res) && res.found
                        == b2.spec_result()))
            })))),
            // a passing first commit hands the probe to the last; a
            // reproducing last commit starts a fresh bisection
            (old(self).phase is CiVerifyStart && ev == Event::Probe(
                ProbeEvent::Outcome(TestOutcome::Baseline),
            ) ==> final(self).phase is CiVerifyEnd && final(self).searched == old(self).searched
                && (r matches Action::ProbeIndex(j) && j == old(self).searched@.len() - 1)),
            (old(self).phase is CiVerifyEnd && ev == Event::Probe(
                ProbeEvent::Outcome(TestOutcome::Regressed),
            ) ==> (final(self).phase matches Phase::CiBisect(b2) && b2.n == old(
                self,
            ).searched@.len() && b2.lo == 0 && b2.hi == b2.n && !b2.best_found && (r matches
                Action::ProbeIndex(j) && Some(j) == b2.spec_next_probe()))),
            // the one-day window and the commit list are resolved in a
            // fixed chain
            (old(self).phase matches Phase::ByCommitStart { start_day, end_day } ==> (ev matches
                Event::Sha(s) ==> final(self).phase == (Phase::ByCommitEnd {
                end_day,
                start_sha: s,
            }) && r == Action::ResolveDate(end_day))),
            (old(self).phase matches Phase::ByCommitEnd { end_day: _, start_sha } ==> (ev matches
                Event::Sha(s) ==> final(self).phase == (Phase::CiResolveEnd {
                start_ref: start_sha,
                end_ref: s,
            }) && (r matches Action::ResolveRef(e) && e@ == s@))),
            (old(self).phase matches Phase::ResolvePrev { boundary } ==> (ev matches Event::Sha(
                s,
            ) ==> final(self).phase == (Phase::ResolveBound { boundary, working: s }) && r
                == Action::ResolveDate(boundary))),
            (old(self).phase matches Phase::ResolveBound { boundary: _, working } ==> (ev matches
                Event::Sha(s) ==> final(self).phase == (Phase::CiResolveEnd {
                start_ref: working,
                end_ref: s,
            }) && (r matches Action::ResolveRef(e) && e@ == s@))),
            (old(self).phase matches Phase::CiResolveEnd { start_ref, end_ref: _ } ==> (ev
                matches Event::ResolvedCommit(c) ==> (final(self).phase matches
                Phase::CiFetchCommits { start_ref: sr, end_sha } && sr == start_ref && end_sha
                == c.sha) && (r matches Action::FetchCommits { start, end } && start@
                == start_ref@ && end@ == c.sha@))),
            // the fetched commit list must end at the endpoint, be in
            // authored-day order, and survive the retention window; the
            // survivors become the searched sequence
            (old(self).phase matches Phase::CiFetchCommits { start_ref: _, end_sha } ==> (ev
                matches Event::Commits(commits) ==> ({
                let kept = commits@.filter(
                    |c: Commit| crate::toolchains::within_retention(c, old(self).cfg.today),
                );
                &&& (commits@.len() == 0 ==> r == Action::Stop(
                    Some(BisectError::EndpointMismatch),
                ))
                &&& (commits@.len() > 0 && commits@.last().sha@ != end_sha@ ==> r
                    == Action::Stop(Some(BisectError::EndpointMismatch)))
                &&& (commits@.len() > 0 && commits@.last().sha@ == end_sha@
                    && !crate::toolchains::commits_sorted(commits@) ==> r == Action::Stop(
                    Some(BisectError::CommitsUnordered),
                ))
                &&& (commits@.len() > 0 && commits@.last().sha@ == end_sha@
                    && crate::toolchains::commits_sorted(commits@) && kept.len() == 0 ==> r
                    == Action::Stop(Some(BisectError::RetentionExhausted)))
                &&& (commits@.len() > 0 && commits@.last().sha@ == end_sha@
                    && crate::toolchains::commits_sorted(commits@) && kept.len() > 0 && (r
                    is ProbeIndex) ==> final(self).searched@.len() == kept.len() && (forall|
                    i: int,
                |
                    0 <= i < kept.len() ==> ((#[trigger] final(self).searched@[i]).kind
                        matches ToolchainSpec::Ci { commit, alt } && commit@ == kept[i].sha@
                        && alt == old(self).cfg.alt)) && final(self).phase is CiVerifyStart && r
                    == Action::ProbeIndex(0))
            }))),
            // a regressed nightly makes the scan stride further back —
            // unless the start was pinned, which makes it an error — and
            // a missing artifact rolls the scan back one day
            (old(self).phase matches Phase::Scanning(s) ==> (s.spec_action() == ScanStep::Probe(
                s.current,
            ) ==> {
                let strode = Day {
                    num: (s.iter.current_date.num - spec_stride(
                        s.iter.start_date.num - s.iter.current_date.num,
                    )) as i64,
                };
                let rolled = Day { num: (s.current.num - 1) as i64 };
                &&& (ev == Event::Probe(ProbeEvent::Outcome(TestOutcome::Regressed))
                    && s.has_start ==> r == Action::Stop(Some(BisectError::StartRegressed)))
                &&& (ev == Event::Probe(ProbeEvent::Outcome(TestOutcome::Regressed))
                    && !s.has_start ==> (strode.num > s.cutoff.num ==> (final(self).phase matches
                Phase::Scanning(s2) && s2.current == strode && s2.last_failure == s.current
                    && s2.cutoff == s.cutoff && s2.has_start == s.has_start) && r
                    == Action::ProbeNightly(strode)) && (strode.num <= s.cutoff.num ==> r
                    == Action::Stop(Some(BisectError::NoNightlyBuilt))))
                &&& (ev == Event::Probe(ProbeEvent::NotFound) && s.has_start ==> r
                    == Action::Stop(Some(BisectError::NightlyMissing)))
                &&& (ev == Event::Probe(ProbeEvent::NotFound) && !s.has_start ==> (rolled.num
                    > s.cutoff.num ==> (final(self).phase matches Phase::Scanning(s3)
                    && s3.current == rolled && s3.last_failure == s.last_failure && s3.iter
                    == s.iter) && r == Action::ProbeNightly(rolled)) && (rolled.num
                    <= s.cutoff.num ==> r == Action::Stop(Some(BisectError::NoNightlyBuilt))))
                &&& (ev == Event::Probe(ProbeEvent::Failed) ==> r == Action::Stop(
                    Some(BisectError::InstallFailed),
                ))
            })),
    {
        let mut ph = Phase::Finished;
        core::mem::swap(&mut ph, &mut self.phase);
        match ph {
            Phase::ByCommitStart { start_day, end_day } => match ev {
                Event::Sha(s) => {
                    self.phase = Phase::ByCommitEnd { end_day, start_sha: s };
                    Action::ResolveDate(end_day)
                },
                _ => self.fail(BisectError::AccessorFailed),
            },
            Phase::ByCommitEnd { end_day: _, start_sha } => match ev {
                Event::Sha(s) => {
                    let action = Action::ResolveRef(s.clone());
                    self.phase = Phase::CiResolveEnd { start_ref: start_sha, end_ref: s };
                    action
                },
                _ => self.fail(BisectError::AccessorFailed),
            },
            Phase::Scanning(mut scan) => match ev {
                Event::Probe(pe) => {
                    match scan.start_action() {
                        ScanStep::Probe(_) => {
                            let next = scan.step(pe);
                            match next {
                                ScanStep::Probe(d) => {
                                    self.phase = Phase::Scanning(scan);
                                    Action::ProbeNightly(d)
                                },
                                ScanStep::Found { first_success, last_failure } => {
                                    self.phase = Phase::VerifyEnd { first_success, last_failure };
                                    Action::ProbeNightly(last_failure)
                                },
                                ScanStep::Fail(e) => self.fail(e),
                            }
                        },
                        _ => self.fail(BisectError::InstallFailed),
                    }
                },
                _ => self.fail(BisectError::AccessorFailed),
            },
            Phase::VerifyEnd { first_success, last_failure } => match ev {
                Event::Probe(ProbeEvent::Outcome(TestOutcome::Regressed)) => {
                    let toolchains = toolchains_between(
                        first_success,
                        last_failure,
                        &self.cfg.host,
                        &self.cfg.target,
                    );
                    if toolchains.len() == 0 {
                        return self.fail(BisectError::EmptyRange);
                    }
                    let bis = Bisector::new(toolchains.len());
                    self.searched = toolchains;
                    self.bisect_action(bis, false)
                },
                Event::Probe(ProbeEvent::Outcome(TestOutcome::Baseline)) => self.fail(
                    BisectError::EndNotRegressed,
                ),
                Event::Probe(_) => self.fail(BisectError::InstallFailed),
                _ => self.fail(BisectError::AccessorFailed),
            },
            Phase::NightlyBisect(bis) => self.bisect_step(bis, ev, false),
            Phase::NightlyReprobe { found, inconclusive } => match ev {
                Event::Probe(ProbeEvent::Outcome(TestOutcome::Regressed)) => self.finish_nightly(
                    found,
                    inconclusive,
                ),
                _ => {
                    // anything but a clear Yes: the regression was not
                    // found in the range; expanding the bounds may help
                    self.not_found = true;
                    self.phase = Phase::Finished;
                    Action::Stop(self.failure)
                },
            },
            Phase::ResolvePrev { boundary } => match ev {
                Event::Sha(s) => {
                    self.phase = Phase::ResolveBound { boundary, working: s };
                    Action::ResolveDate(boundary)
                },
                _ => self.fail(BisectError::AccessorFailed),
            },
            Phase::ResolveBound { boundary: _, working } => match ev {
                Event::Sha(s) => {
                    let action = Action::ResolveRef(s.clone());
                    self.phase = Phase::CiResolveEnd { start_ref: working, end_ref: s };
                    action
                },
                _ => self.fail(BisectError::AccessorFailed),
            },
            Phase::CiResolveEnd { start_ref, end_ref: _ } => match ev {
                Event::ResolvedCommit(c) => {
                    let action = Action::FetchCommits {
                        start: start_ref.clone(),
                        end: c.sha.clone(),
                    };
                    self.phase = Phase::CiFetchCommits { start_ref, end_sha: c.sha };
                    action
                },
                _ => self.fail(BisectError::AccessorFailed),
            },
            Phase::CiFetchCommits { start_ref: _, end_sha } => match ev {
                Event::Commits(commits) => {
                    if commits.len() == 0 {
                        return self.fail(BisectError::EndpointMismatch);
                    }
                    if !str_eq(commits[commits.len() - 1].sha.as_str(), end_sha.as_str()) {
                        return self.fail(BisectError::EndpointMismatch);
                    }
                    if !check_commits_sorted(&commits) {
                        return self.fail(BisectError::CommitsUnordered);
                    }
                    let kept = match prepare_ci_commits(
                        &commits,
                        end_sha.as_str(),
                        self.cfg.today,
                    ) {
                        Ok(kept) => kept,
                        Err(e) => {
                            return self.fail(e);
                        },
                    };
                    let toolchains = commits_to_toolchains(
                        &kept,
                        self.cfg.alt,
                        &self.cfg.host,
                        &self.cfg.target,
                    );
                    self.searched = toolchains;
                    self.phase = Phase::CiVerifyStart;
                    Action::ProbeIndex(0)
                },
                _ => self.fail(BisectError::AccessorFailed),
            },
            Phase::CiVerifyStart => match ev {
                Event::Probe(ProbeEvent::Outcome(TestOutcome::Baseline)) => {
                    self.phase = Phase::CiVerifyEnd;
                    Action::ProbeIndex(self.searched.len() - 1)
                },
                Event::Probe(ProbeEvent::Outcome(TestOutcome::Regressed)) => self.fail(
                    BisectError::StartRegressed,
                ),
                Event::Probe(_) => self.fail(BisectError::InstallFailed),
                _ => self.fail(BisectError::AccessorFailed),
            },
            Phase::CiVerifyEnd => match ev {
                Event::Probe(ProbeEvent::Outcome(TestOutcome::Regressed)) => {
                    let bis = Bisector::new(self.searched.len());
                    self.bisect_action(bis, true)
                },
                Event::Probe(ProbeEvent::Outcome(TestOutcome::Baseline)) => self.fail(
                    BisectError::EndNotRegressed,
                ),
                Event::Probe(_) => self.fail(BisectError::InstallFailed),
                _ => self.fail(BisectError::AccessorFailed),
            },
            Phase::CiBisect(bis) => self.bisect_step(bis, ev, true),
            Phase::CiReprobe { found, inconclusive } => match ev {
                Event::Probe(ProbeEvent::Outcome(TestOutcome::Regressed)) => self.finish_ci(
                    found,
                    inconclusive,
                ),
                _ => {
                    self.not_found = true;
                    self.phase = Phase::Finished;
                    Action::Stop(self.failure)
                },
            },
            Phase::Finished => Action::Stop(self.failure),
        }
    }

    /// End the search with an error.
    fn fail(&mut self, e: BisectError) -> (r: Action)
        requires
            old(self).inv(),
        ensures
            final(self).inv(),
            final(self).cfg == old(self).cfg,
            final(self).phase is Finished,
            final(self).failure == Some(e),
            r == Action::Stop(Some(e)),
            final(self).searched == old(self).searched,
    {
        self.phase = Phase::Finished;
        self.failure = Some(e);
        Action::Stop(Some(e))
    }

    /// One engine step of a running bisection: the probed index's
    /// verdict is recorded and the engine's next wish dispatched. Every
    /// state this leaves behind is a legal engine transition on that
    /// verdict.
    fn bisect_step(&mut self, bis: Bisector, ev: Event, ci: bool) -> (r: Action)
        requires
            old(self).inv(),
            bis.inv(),
            bis.n == old(self).searched@.len(),
            old(self).searched@.len() >= 1,
            !ci ==> old(self).nightly_seq_ok(),
        ensures
            final(self).inv(),
            final(self).cfg == old(self).cfg,
            (r matches Action::ProbeIndex(i) ==> i < final(self).searched@.len()),
            (r is Stop <==> final(self).phase is Finished),
            (r matches Action::Stop(e) ==> e == final(self).failure),
            (ev matches Event::Probe(pe) ==> (bis.spec_next_probe() matches Some(i) ==> ({
                let v = spec_verdict(pe);
                &&& (!ci ==> (final(self).phase matches Phase::NightlyBisect(b2)
                    ==> Bisector::spec_recorded(bis, i, v, b2) && (r matches Action::ProbeIndex(
                    j,
                ) && Some(j) == b2.spec_next_probe())))
                &&& (ci ==> (final(self).phase matches Phase::CiBisect(b2)
                    ==> Bisector::spec_recorded(bis, i, v, b2) && (r matches Action::ProbeIndex(
                    j,
                ) && Some(j) == b2.spec_next_probe())))
                &&& (!ci ==> (final(self).phase matches Phase::NightlyReprobe { found, .. }
                    ==> exists|b2: Bisector|
                    #[trigger] Bisector::spec_recorded(bis, i, v, b2) && b2.spec_next_probe()
                        is None && found == b2.spec_result()))
                &&& (ci ==> (final(self).phase matches Phase::CiReprobe { found, .. } ==> exists|
                    b2: Bisector,
                |
                    #[trigger] Bisector::spec_recorded(bis, i, v, b2) && b2.spec_next_probe()
                        is None && found == b2.spec_result()))
                &&& (final(self).phase is ResolvePrev ==> exists|b2: Bisector|
                    #[trigger] Bisector::spec_recorded(bis, i, v, b2) && b2.spec_next_probe()
                        is None && (final(self).nightly_result matches Some(res) && res.found
                        == b2.spec_result()))
                &&& (final(self).phase is Finished ==> exists|b2: Bisector|
                    #[trigger] Bisector::spec_recorded(bis, i, v, b2) && b2.spec_next_probe()
                        is None && (final(self).ci_result matches Some(res) && res.found
                        == b2.spec_result()))
            }))),
    {
        match ev {
            Event::Probe(pe) => {
                let v = verdict_of_probe(pe);
                let mut engine = bis;
                match engine.next_probe() {
                    Some(i) => {
                        engine.record(i, v);
                        proof {
                            assert(Bisector::spec_recorded(bis, i, v, engine));
                        }
                        self.bisect_action(engine, ci)
                    },
                    None => self.bisect_action(engine, ci),
                }
            },
            _ => self.fail(BisectError::AccessorFailed),
        }
    }

    /// Ask the bisector for its next probe; when it has none left,
    /// settle the phase's result, re-probing a boundary that sits on
    /// the end of the sequence.
    fn bisect_action(&mut self, bis: Bisector, ci: bool) -> (r: Action)
        requires
            old(self).inv(),
            bis.inv(),
            bis.n == old(self).searched@.len(),
            old(self).searched@.len() >= 1,
            !ci ==> old(self).nightly_seq_ok(),
        ensures
            final(self).inv(),
            final(self).cfg == old(self).cfg,
            (r matches Action::ProbeIndex(i) ==> i < final(self).searched@.len()),
            (r is Stop <==> final(self).phase is Finished),
            (r matches Action::Stop(e) ==> e == final(self).failure),
            bis.spec_next_probe() is Some ==> final(self).searched == old(self).searched && (ci
                ==> final(self).phase == Phase::CiBisect(bis)) && (!ci ==> final(self).phase
                == Phase::NightlyBisect(bis)),
            (bis.spec_next_probe() matches Some(i2) ==> r == Action::ProbeIndex(i2)),
            // a boundary on the end of the sequence is re-probed once
            bis.spec_next_probe() is None && bis.spec_result() == old(self).searched@.len() - 1
                ==> (r matches Action::ProbeIndex(f) && f == bis.spec_result())
                && (ci ==> (final(self).phase matches Phase::CiReprobe { found, .. }
                    && found == bis.spec_result()))
                && (!ci ==> (final(self).phase matches Phase::NightlyReprobe { found, .. }
                    && found == bis.spec_result())),
            // a boundary strictly inside the sequence is settled with no
            // further probe of it
            bis.spec_next_probe() is None && bis.spec_result() < old(self).searched@.len() - 1
                ==> !(r is ProbeIndex) && !(r is ProbeNightly)
                && (!ci ==> (final(self).nightly_result matches Some(res)
                    && res.found == bis.spec_result() && res.searched == old(self).searched)
                    && (r is ResolveDate) && final(self).phase is ResolvePrev)
                && (ci ==> final(self).phase is Finished
                    && (final(self).ci_result matches Some(res)
                        && res.found == bis.spec_result()
                        && res.searched == old(self).searched)),
    {
        match bis.next_probe() {
            Some(i) => {
                if ci {
                    self.phase = Phase::CiBisect(bis);
                } else {
                    self.phase = Phase::NightlyBisect(bis);
                }
                Action::ProbeIndex(i)
            },
            None => {
                let found = bis.result();
                let inconclusive = bis.inconclusive();
                if found == self.searched.len() - 1 {
                    if ci {
                        self.phase = Phase::CiReprobe { found, inconclusive };
                    } else {
                        self.phase = Phase::NightlyReprobe { found, inconclusive };
                    }
                    Action::ProbeIndex(found)
                } else {
                    if ci {
                        self.finish_ci(found, inconclusive)
                    } else {
                        self.finish_nightly(found, inconclusive)
                    }
                }
            },
        }
    }

    /// The nightly boundary is settled: save phase one's result and
    /// start resolving the one-day commit window around the boundary.
    fn finish_nightly(&mut self, found: usize, inconclusive: bool) -> (r: Action)
        requires
            old(self).inv(),
            found < old(self).searched@.len(),
            old(self).nightly_seq_ok(),
        ensures
            final(self).inv(),
            final(self).cfg == old(self).cfg,
            (r is Stop <==> final(self).phase is Finished),
            (r matches Action::Stop(e) ==> e == final(self).failure),
            final(self).nightly_result matches Some(res) && res.found == found
                && res.inconclusive == inconclusive && res.searched == old(self).searched,
            r matches Action::ResolveDate(d) && d.num == old(self).searched@[
                found as int
            ].kind->Nightly_date.num - 1,
            final(self).phase matches Phase::ResolvePrev { boundary } && boundary == old(
                self,
            ).searched@[found as int].kind->Nightly_date,
    {
        let boundary = match &self.searched[found].kind {
            ToolchainSpec::Nightly { date } => *date,
            ToolchainSpec::Ci { .. } => vstd::pervasive::unreached(),
        };
        let mut searched: Vec<Toolchain> = Vec::new();
        core::mem::swap(&mut searched, &mut self.searched);
        self.nightly_result = Some(BisectionResult { searched, found, inconclusive });
        self.phase = Phase::ResolvePrev { boundary };
        Action::ResolveDate(boundary.pred())
    }

    /// The commit boundary is settled: save phase two's result and
    /// stop.
    fn finish_ci(&mut self, found: usize, inconclusive: bool) -> (r: Action)
        requires
            old(self).inv(),
            found < old(self).searched@.len(),
        ensures
            final(self).inv(),
            final(self).cfg == old(self).cfg,
            final(self).phase is Finished,
            final(self).failure == old(self).failure,
            (r is Stop <==> final(self).phase is Finished),
            (r matches Action::Stop(e) ==> e == final(self).failure),
            final(self).ci_result matches Some(res) && res.found == found && res.inconclusive
                == inconclusive && res.searched == old(self).searched,
    {
        let mut searched: Vec<Toolchain> = Vec::new();
        core::mem::swap(&mut searched, &mut self.searched);
        self.ci_result = Some(BisectionResult { searched, found, inconclusive });
        self.phase = Phase::Finished;
        Action::Stop(self.failure)
    }
}

/// The search verdict a probe event carries: an installation failure
/// of any kind counts as an inconclusive probe during a bisection.
pub open spec fn spec_verdict(pe: ProbeEvent) -> Satisfies {
    match pe {
        ProbeEvent::Outcome(TestOutcome::Regressed) => Satisfies::Yes,
        ProbeEvent::Outcome(TestOutcome::Baseline) => Satisfies::No,
        _ => Satisfies::Unknown,
    }
}

pub fn verdict_of_probe(pe: ProbeEvent) -> (r: Satisfies)
    ensures
        r == spec_verdict(pe),
{
    match pe {
        ProbeEvent::Outcome(o) => satisfies_of_outcome(o),
        ProbeEvent::NotFound => Satisfies::Unknown,
        ProbeEvent::Failed => Satisfies::Unknown,
    }
}

} // verus!
