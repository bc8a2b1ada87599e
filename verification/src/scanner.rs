//! The coarse nightly scanner: starting from the requested (or default)
//! day, walk backwards with a growing stride until a nightly probes
//! baseline, discovering the left bound of the date range that the
//! bisection proper will search.

use vstd::prelude::*;

use crate::dates::Day;
use crate::errors::BisectError;
use crate::outcome::TestOutcome;

verus! {

/// The stride, in days, of the backward walk, keyed on the distance
/// already covered: two days within the first week, a week up to the
/// seventh week, two weeks beyond.
pub open spec fn spec_stride(distance: int) -> int {
    if distance < 7 {
        2
    } else if distance < 49 {
        7
    } else {
        14
    }
}

/// The stride never shrinks as the walk gets farther from its start.
pub proof fn lemma_stride_monotone(d1: int, d2: int)
    requires
        d1 <= d2,
    ensures
        spec_stride(d1) <= spec_stride(d2),
{
}

/// Enumerates the days the backward walk visits. The walk's own
/// position is kept separately from the scanner's probe date: a one-day
/// rollback after a missing artifact does not advance the stride.
pub struct NightlyFinderIter {
    pub start_date: Day,
    pub current_date: Day,
}

impl NightlyFinderIter {
    pub open spec fn wf(self) -> bool {
        &&& -0x8000_0000 - 14 <= self.current_date.num <= self.start_date.num
        &&& self.start_date.num <= 0x7fff_ffff
    }

    pub fn new(start_date: Day) -> (r: Self)
        requires
            -0x8000_0000 <= start_date.num <= 0x7fff_ffff,
        ensures
            r.start_date == start_date,
            r.current_date == start_date,
            r.wf(),
    {
        Self { start_date, current_date: start_date }
    }

    /// Step back by the stride the covered distance calls for, and
    /// yield the day stepped onto.
    pub fn next(&mut self) -> (r: Day)
        requires
            old(self).wf(),
        ensures
            final(self).start_date == old(self).start_date,
            final(self).current_date.num == old(self).current_date.num - spec_stride(
                old(self).start_date.num - old(self).current_date.num,
            ),
            r == final(self).current_date,
    {
        let current_distance = self.start_date.num - self.current_date.num;
        let jump_length: i64 = if current_distance < 7 {
            2
        } else if current_distance < 49 {
            7
        } else {
            14
        };
        self.current_date = Day { num: self.current_date.num - jump_length };
        self.current_date
    }
}

/// What a probe of one nightly told the scanner.
#[derive(Clone, Copy, Debug, PartialEq, Eq, Structural)]
pub enum ProbeEvent {
    /// The toolchain installed and the test ran to this outcome.
    Outcome(TestOutcome),
    /// The artifact for that day does not exist upstream.
    NotFound,
    /// Installation failed for some other reason.
    Failed,
}

/// What the scanner wants next.
#[derive(Clone, Copy, Debug, PartialEq, Eq, Structural)]
pub enum ScanStep {
    /// Probe the nightly published on this day.
    Probe(Day),
    /// The walk is over: the nightly at `first_success` probed baseline
    /// and the one at `last_failure` is the latest known regressed day.
    Found { first_success: Day, last_failure: Day },
    /// The walk failed.
    Fail(BisectError),
}

/// The backward walk, as a state machine: `start_action` names the
/// first day to probe, and each probe's event is fed through `step`,
/// which names the next day or ends the walk.
pub struct NightlyScan {
    /// Days on or before this one have no standard-library packages
    /// upstream and are never probed.
    pub cutoff: Day,
    /// Whether the user pinned the left bound explicitly: then a
    /// regressed or missing first nightly is an error, not a reason to
    /// walk on.
    pub has_start: bool,
    /// The day to probe next.
    pub current: Day,
    /// The latest day known to reproduce the regression.
    pub last_failure: Day,
    pub iter: NightlyFinderIter,
}

impl NightlyScan {
    pub open spec fn wf(self) -> bool {
        &&& -0x8000_0000 <= self.cutoff.num
        &&& -0x8000_0000 - 14 <= self.current.num <= self.iter.current_date.num
        &&& self.iter.wf()
        &&& -0x8000_0000 <= self.last_failure.num <= 0x7fff_ffff
    }

    pub fn new(start_date: Day, end_date: Day, has_start: bool, cutoff: Day) -> (r: Self)
        requires
            -0x8000_0000 <= start_date.num <= 0x7fff_ffff,
            -0x8000_0000 <= end_date.num <= 0x7fff_ffff,
            -0x8000_0000 <= cutoff.num,
        ensures
            r.wf(),
            r.cutoff == cutoff,
            r.has_start == has_start,
            r.current == start_date,
            r.last_failure == end_date,
            r.iter.start_date == start_date,
            r.iter.current_date == start_date,
    {
        Self {
            cutoff,
            has_start,
            current: start_date,
            last_failure: end_date,
            iter: NightlyFinderIter::new(start_date),
        }
    }

    /// The walk's next move from its current position: probe the
    /// current day, unless the walk has passed the cutoff without ever
    /// finding a nightly that builds and probes baseline.
    pub open spec fn spec_action(self) -> ScanStep {
        if self.current.num > self.cutoff.num {
            ScanStep::Probe(self.current)
        } else {
            ScanStep::Fail(BisectError::NoNightlyBuilt)
        }
    }

    pub fn start_action(&self) -> (r: ScanStep)
        requires
            self.wf(),
        ensures
            r == self.spec_action(),
    {
        if self.current.num > self.cutoff.num {
            ScanStep::Probe(self.current)
        } else {
            ScanStep::Fail(BisectError::NoNightlyBuilt)
        }
    }

    /// Feed back what the probe of `current` observed.
    ///
    /// Baseline ends the walk with the discovered range. Regressed
    /// marks the day as the latest failure and strides further back —
    /// unless the start was pinned, which makes a regressed start an
    /// error. A missing artifact rolls back exactly one day without
    /// advancing the stride — or is an error under a pinned start. Any
    /// other installation failure ends the walk.
    pub fn step(&mut self, ev: ProbeEvent) -> (r: ScanStep)
        requires
            old(self).wf(),
            old(self).spec_action() == ScanStep::Probe(old(self).current),
        ensures
            final(self).wf(),
            final(self).cutoff == old(self).cutoff,
            final(self).has_start == old(self).has_start,
            ev == ProbeEvent::Outcome(TestOutcome::Baseline) ==> *final(self) == *old(self) && r
                == (ScanStep::Found {
                first_success: old(self).current,
                last_failure: old(self).last_failure,
            }),
            ev == ProbeEvent::Outcome(TestOutcome::Regressed) && old(self).has_start
                ==> *final(self) == *old(self) && r == ScanStep::Fail(BisectError::StartRegressed),
            ev == ProbeEvent::Outcome(TestOutcome::Regressed) && !old(self).has_start ==> {
                &&& final(self).last_failure == old(self).current
                &&& final(self).current.num == old(self).iter.current_date.num - spec_stride(
                    old(self).iter.start_date.num - old(self).iter.current_date.num,
                )
                &&& final(self).iter.current_date == final(self).current
                &&& final(self).iter.start_date == old(self).iter.start_date
                &&& r == final(self).spec_action()
            },
            ev == ProbeEvent::NotFound && old(self).has_start ==> *final(self) == *old(self) && r
                == ScanStep::Fail(BisectError::NightlyMissing),
            ev == ProbeEvent::NotFound && !old(self).has_start ==> {
                &&& final(self).last_failure == old(self).last_failure
                &&& final(self).current.num == old(self).current.num - 1
                &&& final(self).iter == old(self).iter
                &&& r == final(self).spec_action()
            },
            ev == ProbeEvent::Failed ==> *final(self) == *old(self) && r == ScanStep::Fail(
                BisectError::InstallFailed,
            ),
    {
        match ev {
            ProbeEvent::Outcome(TestOutcome::Baseline) => ScanStep::Found {
                first_success: self.current,
                last_failure: self.last_failure,
            },
            ProbeEvent::Outcome(TestOutcome::Regressed) => {
                if self.has_start {
                    ScanStep::Fail(BisectError::StartRegressed)
                } else {
                    self.last_failure = self.current;
                    self.current = self.iter.next();
                    self.start_action()
                }
            },
            ProbeEvent::NotFound => {
                if self.has_start {
                    ScanStep::Fail(BisectError::NightlyMissing)
                } else {
                    self.current = Day { num: self.current.num - 1 };
                    self.start_action()
                }
            },
            ProbeEvent::Failed => ScanStep::Fail(BisectError::InstallFailed),
        }
    }
}

} // verus!
