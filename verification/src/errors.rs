//! The error kinds the search logic can surface. Values that belong to
//! a message (the offending bound, commit or toolchain) travel beside
//! the error in the caller's hands; the kind itself is plain data.

use vstd::prelude::*;

verus! {

#[derive(Clone, Copy, Debug, PartialEq, Eq, Structural)]
pub enum BisectError {
    /// The start bound names a day after the end bound.
    StartAfterEnd,
    /// The start bound names a day after the current day.
    StartInFuture,
    /// The end bound names a day after the current day.
    EndInFuture,
    /// One bound is a commit while the other is a date.
    MixedBounds,
    /// The alternative build profile cannot be combined with a nightly
    /// search.
    AltNotSupported,
    /// The pinned start of the range already reproduces the regression.
    StartRegressed,
    /// The end of the range does not reproduce the regression.
    EndNotRegressed,
    /// A pinned start nightly could not be installed.
    NightlyMissing,
    /// No nightly that builds was found before the first published day.
    NoNightlyBuilt,
    /// Installing a toolchain failed for a reason other than a missing
    /// artifact.
    InstallFailed,
    /// No continuous-integration build is left inside the retention
    /// window.
    RetentionExhausted,
    /// The commit list does not end at the requested endpoint.
    EndpointMismatch,
    /// The commit list is not in non-decreasing authored-date order.
    CommitsUnordered,
    /// The repository accessor or the manifest fetch failed.
    AccessorFailed,
    /// The discovered date range is empty: there is nothing to bisect.
    EmptyRange,
}

} // verus!
