//! Search bounds: a bound is a day, or a commit hash or version tag; an
//! absent bound defers to defaults. This module parses bounds, validates
//! endpoint pairs against the current day, classifies bound pairs for
//! phase selection, and decides which tag bounds are to be rewritten to
//! their authored dates.

use vstd::prelude::*;

use crate::dates::{
    parses_as_date, date_str_year, date_str_month, date_str_day, day_number_of, parse_date, Day,
};
use crate::errors::BisectError;
use crate::text::{contains_seq, str_contains};

verus! {

/// A user-supplied search bound.
#[derive(Clone, Debug, PartialEq)]
pub enum Bound {
    /// A commit hash, branch name or version tag.
    Commit(String),
    /// A nightly, identified by the day it was published.
    Date(Day),
}

impl Bound {
    /// Parse a bound: a string of the shape `YYYY-MM-DD` naming an
    /// existing date is a day, anything else is a commit-or-tag.
    pub fn from_str(s: &str) -> (r: Bound)
        ensures
            parses_as_date(s@) ==> (r matches Bound::Date(day) && day.num == day_number_of(
                date_str_year(s@),
                date_str_month(s@),
                date_str_day(s@),
            )),
            !parses_as_date(s@) ==> (r matches Bound::Commit(c) && c@ == s@),
    {
        match parse_date(s) {
            Some(day) => Bound::Date(day),
            None => Bound::Commit(s.to_owned()),
        }
    }
}

/// A bound that names a version tag rather than a bare commit: tag-ness
/// is a heuristic, the presence of a dot.
pub open spec fn spec_is_tag(b: Option<Bound>) -> bool {
    match b {
        Some(Bound::Commit(c)) => contains_seq(c@, "."@),
        _ => false,
    }
}

/// A bound that can take part in a date-first search: absent, a date,
/// or a tag (whose authored date can be resolved).
pub open spec fn spec_is_datelike(b: Option<Bound>) -> bool {
    match b {
        None => true,
        Some(Bound::Date(_)) => true,
        Some(Bound::Commit(c)) => contains_seq(c@, "."@),
    }
}

pub fn is_tag(b: &Option<Bound>) -> (r: bool)
    ensures
        r == spec_is_tag(*b),
{
    match b {
        Some(Bound::Commit(c)) => str_contains(c.as_str(), "."),
        _ => false,
    }
}

pub fn is_datelike(b: &Option<Bound>) -> (r: bool)
    ensures
        r == spec_is_datelike(*b),
{
    match b {
        None => true,
        Some(Bound::Date(_)) => true,
        Some(Bound::Commit(c)) => str_contains(c.as_str(), "."),
    }
}

/// Which of the two bounds are tags to be rewritten to their authored
/// dates before a date-first search. If either bound is a bare commit,
/// neither is rewritten.
pub fn fixup_targets(start: &Option<Bound>, end: &Option<Bound>) -> (r: (bool, bool))
    ensures
        r.0 == (spec_is_datelike(*start) && spec_is_datelike(*end) && spec_is_tag(*start)),
        r.1 == (spec_is_datelike(*start) && spec_is_datelike(*end) && spec_is_tag(*end)),
{
    let datelike = is_datelike(start) && is_datelike(end);
    if !datelike {
        (false, false)
    } else {
        (is_tag(start), is_tag(end))
    }
}

/// The validation error a pair of bounds deserves on a given day, if
/// any: a dated pair must not be inverted, and no dated bound may lie
/// in the future. Pairs with an absent side are not validated here.
pub open spec fn spec_bounds_error(
    start: Option<Bound>,
    end: Option<Bound>,
    today: Day,
) -> Option<BisectError> {
    match (start, end) {
        (Some(Bound::Date(sd)), Some(Bound::Date(ed))) => if ed.num < sd.num {
            Some(BisectError::StartAfterEnd)
        } else if sd.num > today.num {
            Some(BisectError::StartInFuture)
        } else if ed.num > today.num {
            Some(BisectError::EndInFuture)
        } else {
            None
        },
        (Some(Bound::Date(sd)), Some(Bound::Commit(_))) => if sd.num > today.num {
            Some(BisectError::StartInFuture)
        } else {
            None
        },
        (Some(Bound::Commit(_)), Some(Bound::Date(ed))) => if ed.num > today.num {
            Some(BisectError::EndInFuture)
        } else {
            None
        },
        _ => None,
    }
}

/// Validate a pair of bounds against an explicit current day.
pub fn check_bounds_at(start: &Option<Bound>, end: &Option<Bound>, today: Day) -> (r: Result<
    (),
    BisectError,
>)
    ensures
        r.is_ok() <==> spec_bounds_error(*start, *end, today) is None,
        (r matches Err(e) ==> Some(e) == spec_bounds_error(*start, *end, today)),
{
    match (start, end) {
        (Some(Bound::Date(sd)), Some(Bound::Date(ed))) => {
            if ed.num < sd.num {
                Err(BisectError::StartAfterEnd)
            } else if sd.num > today.num {
                Err(BisectError::StartInFuture)
            } else if ed.num > today.num {
                Err(BisectError::EndInFuture)
            } else {
                Ok(())
            }
        },
        (Some(Bound::Date(sd)), Some(Bound::Commit(_))) => {
            if sd.num > today.num {
                Err(BisectError::StartInFuture)
            } else {
                Ok(())
            }
        },
        (Some(Bound::Commit(_)), Some(Bound::Date(ed))) => {
            if ed.num > today.num {
                Err(BisectError::EndInFuture)
            } else {
                Ok(())
            }
        },
        _ => Ok(()),
    }
}

/// A pair of dated bounds is accepted exactly when the start does not
/// follow the end and neither day is in the future.
pub proof fn lemma_check_bounds_characterization(sd: Day, ed: Day, today: Day)
    ensures
        spec_bounds_error(Some(Bound::Date(sd)), Some(Bound::Date(ed)), today) is None <==> (sd.num
            <= ed.num && sd.num <= today.num && ed.num <= today.num),
{
}

/// Validate a pair of bounds against the current UTC day.
pub fn check_bounds(start: &Option<Bound>, end: &Option<Bound>) -> (r: Result<(), BisectError>)
    ensures
        (start is None || end is None) ==> r.is_ok(),
        (start matches Some(Bound::Commit(_)) && end matches Some(Bound::Commit(_))) ==> r.is_ok(),
        (start matches Some(Bound::Date(sd)) && end matches Some(Bound::Date(ed)) && ed.num
            < sd.num) ==> r == Result::<(), BisectError>::Err(BisectError::StartAfterEnd),
        (r matches Err(e) ==> (e is StartAfterEnd || e is StartInFuture || e is EndInFuture)),
{
    let today = crate::dates::today_day();
    check_bounds_at(start, end, today)
}

/// How a pair of bounds selects the search phase.
#[derive(Clone, Copy, Debug, PartialEq, Eq, Structural)]
pub enum BoundKinds {
    /// At least one commit bound, no date bound: search CI builds only.
    Commits,
    /// At least one date bound, no commit bound: search nightlies first.
    Dates,
    /// No bound at all.
    Unbounded,
}

pub open spec fn spec_bound_kinds(start: Option<Bound>, end: Option<Bound>) -> Result<
    BoundKinds,
    BisectError,
> {
    match (start, end) {
        (Some(Bound::Commit(_)), Some(Bound::Commit(_))) => Ok(BoundKinds::Commits),
        (None, Some(Bound::Commit(_))) => Ok(BoundKinds::Commits),
        (Some(Bound::Commit(_)), None) => Ok(BoundKinds::Commits),
        (Some(Bound::Date(_)), Some(Bound::Date(_))) => Ok(BoundKinds::Dates),
        (None, Some(Bound::Date(_))) => Ok(BoundKinds::Dates),
        (Some(Bound::Date(_)), None) => Ok(BoundKinds::Dates),
        (None, None) => Ok(BoundKinds::Unbounded),
        _ => Err(BisectError::MixedBounds),
    }
}

/// Classify a pair of bounds; a commit on one side and a date on the
/// other is rejected.
pub fn bound_kinds(start: &Option<Bound>, end: &Option<Bound>) -> (r: Result<
    BoundKinds,
    BisectError,
>)
    ensures
        r == spec_bound_kinds(*start, *end),
{
    match (start, end) {
        (Some(Bound::Commit(_)), Some(Bound::Commit(_))) => Ok(BoundKinds::Commits),
        (None, Some(Bound::Commit(_))) => Ok(BoundKinds::Commits),
        (Some(Bound::Commit(_)), None) => Ok(BoundKinds::Commits),
        (Some(Bound::Date(_)), Some(Bound::Date(_))) => Ok(BoundKinds::Dates),
        (None, Some(Bound::Date(_))) => Ok(BoundKinds::Dates),
        (Some(Bound::Date(_)), None) => Ok(BoundKinds::Dates),
        (None, None) => Ok(BoundKinds::Unbounded),
        _ => Err(BisectError::MixedBounds),
    }
}

/// The day the search ends at: the dated end bound if one was given,
/// else the installed default nightly, else today.
pub open spec fn spec_end_date(end: Option<Bound>, default_nightly: Option<Day>, today: Day) -> Day {
    match end {
        Some(Bound::Date(d)) => d,
        _ => match default_nightly {
            Some(d) => d,
            None => today,
        },
    }
}

pub fn get_end_date(end: &Option<Bound>, default_nightly: Option<Day>, today: Day) -> (r: Day)
    ensures
        r == spec_end_date(*end, default_nightly, today),
{
    match end {
        Some(Bound::Date(d)) => *d,
        _ => match default_nightly {
            Some(d) => d,
            None => today,
        },
    }
}

/// The day the search starts from: the dated start bound if one was
/// given, else the end day (the coarse scanner will then discover the
/// real left bound).
pub open spec fn spec_start_date(
    start: Option<Bound>,
    end: Option<Bound>,
    default_nightly: Option<Day>,
    today: Day,
) -> Day {
    match start {
        Some(Bound::Date(d)) => d,
        _ => spec_end_date(end, default_nightly, today),
    }
}

pub fn get_start_date(
    start: &Option<Bound>,
    end: &Option<Bound>,
    default_nightly: Option<Day>,
    today: Day,
) -> (r: Day)
    ensures
        r == spec_start_date(*start, *end, default_nightly, today),
{
    match start {
        Some(Bound::Date(d)) => *d,
        _ => get_end_date(end, default_nightly, today),
    }
}

pub fn date_is_future(test_date: Day, today: Day) -> (r: bool)
    ensures
        r == (test_date.num > today.num),
{
    test_date.num > today.num
}

} // verus!
