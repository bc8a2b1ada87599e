//! Rendering results: day strings, toolchain labels, the issue-tracker
//! URLs of the final report, and the searched range shown after each
//! bisection.

use vstd::prelude::*;

use crate::bounds::Bound;
use crate::dates::{day_number_of, day_to_ymd, Day};
use crate::orchestrate::BisectionResult;
use crate::toolchains::{Toolchain, ToolchainSpec};

verus! {

pub open spec fn digit_char(v: int) -> char {
    if v == 0 {
        '0'
    } else if v == 1 {
        '1'
    } else if v == 2 {
        '2'
    } else if v == 3 {
        '3'
    } else if v == 4 {
        '4'
    } else if v == 5 {
        '5'
    } else if v == 6 {
        '6'
    } else if v == 7 {
        '7'
    } else if v == 8 {
        '8'
    } else {
        '9'
    }
}

/// The ten-character `YYYY-MM-DD` rendering of a date.
pub open spec fn spec_date_string(y: int, m: int, d: int) -> Seq<char> {
    seq![
        digit_char(y / 1000 % 10),
        digit_char(y / 100 % 10),
        digit_char(y / 10 % 10),
        digit_char(y % 10),
        '-',
        digit_char(m / 10 % 10),
        digit_char(m % 10),
        '-',
        digit_char(d / 10 % 10),
        digit_char(d % 10),
    ]
}

fn digit_str(v: i64) -> (r: &'static str)
    requires
        0 <= v <= 9,
    ensures
        r@ == seq![digit_char(v as int)],
{
    proof {
        reveal_strlit("0");
        reveal_strlit("1");
        reveal_strlit("2");
        reveal_strlit("3");
        reveal_strlit("4");
        reveal_strlit("5");
        reveal_strlit("6");
        reveal_strlit("7");
        reveal_strlit("8");
        reveal_strlit("9");
    }
    let r = match v {
        0 => "0",
        1 => "1",
        2 => "2",
        3 => "3",
        4 => "4",
        5 => "5",
        6 => "6",
        7 => "7",
        8 => "8",
        _ => "9",
    };
    proof {
        assert(r@ =~= seq![digit_char(v as int)]);
    }
    r
}

/// Render a calendar date as `YYYY-MM-DD`, zero-padded.
pub fn format_ymd(y: i64, m: i64, d: i64) -> (r: String)
    requires
        0 <= y <= 9999,
        0 <= m <= 99,
        0 <= d <= 99,
    ensures
        r@ == spec_date_string(y as int, m as int, d as int),
{
    proof {
        reveal_strlit("-");
    }
    let mut s = String::new();
    s.append(digit_str(y / 1000 % 10));
    s.append(digit_str(y / 100 % 10));
    s.append(digit_str(y / 10 % 10));
    s.append(digit_str(y % 10));
    s.append("-");
    s.append(digit_str(m / 10 % 10));
    s.append(digit_str(m % 10));
    s.append("-");
    s.append(digit_str(d / 10 % 10));
    s.append(digit_str(d % 10));
    proof {
        assert(s@ =~= spec_date_string(y as int, m as int, d as int));
    }
    s
}

/// Render a day as the `YYYY-MM-DD` date it stands for. `None` only for
/// days outside years 1..=9999; every day of those years — day numbers
/// 1..=3_652_059 — is rendered.
pub fn format_day(day: Day) -> (r: Option<String>)
    ensures
        r matches Some(s) ==> exists|y: int, m: int, d: int|
            day_number_of(y, m, d) == day.num && s@ == spec_date_string(y, m, d),
        1 <= day.num <= 3_652_059 ==> r.is_some(),
{
    let (y, m, d) = match day_to_ymd(day) {
        Some(t) => t,
        None => return None,
    };
    if !(1 <= y && y <= 9999) {
        return None;
    }
    let s = format_ymd(y, m, d);
    proof {
        assert(day_number_of(y as int, m as int, d as int) == day.num && s@ == spec_date_string(
            y as int,
            m as int,
            d as int,
        ));
    }
    Some(s)
}

/// The URL of the nightly manifest that names the day's commit.
pub fn manifest_url(date_str: &str) -> (r: String)
    ensures
        r@ == "https://static.rust-lang.org/dist/"@ + date_str@
            + "/channel-rust-nightly-git-commit-hash.txt"@,
{
    let mut s = String::new();
    s.append("https://static.rust-lang.org/dist/");
    s.append(date_str);
    s.append("/channel-rust-nightly-git-commit-hash.txt");
    s
}

/// The comparison URL between the first and last searched commits.
pub fn compare_url(start_sha: &str, end_sha: &str) -> (r: String)
    ensures
        r@ == "https://github.com/rust-lang/rust/compare/"@ + start_sha@ + "..."@ + end_sha@,
{
    let mut s = String::new();
    s.append("https://github.com/rust-lang/rust/compare/");
    s.append(start_sha);
    s.append("...");
    s.append(end_sha);
    s
}

/// The URL of the regressing commit.
pub fn commit_url(sha: &str) -> (r: String)
    ensures
        r@ == "https://github.com/rust-lang/rust/commit/"@ + sha@,
{
    let mut s = String::new();
    s.append("https://github.com/rust-lang/rust/commit/");
    s.append(sha);
    s
}

/// A human-readable label of a toolchain specification: the day of a
/// nightly, the commit of a CI build. `None` only for a nightly day
/// outside years 1..=9999.
pub fn toolchain_label(t: &ToolchainSpec) -> (r: Option<String>)
    ensures
        ((*t) matches ToolchainSpec::Ci { commit, alt } ==> r matches Some(s) && (!alt ==> s@
            == "ci-"@ + commit@) && (alt ==> s@ == "ci-alt-"@ + commit@)),
        ((*t) matches ToolchainSpec::Nightly { date } ==> (r matches Some(s) ==> exists|
            y: int,
            m: int,
            d: int,
        |
            #![trigger spec_date_string(y, m, d)]
            day_number_of(y, m, d) == date.num && s@ == "nightly-"@ + spec_date_string(y, m, d))),
{
    match t {
        ToolchainSpec::Nightly { date } => {
            let ds = match format_day(*date) {
                Some(ds) => ds,
                None => return None,
            };
            let mut s = String::new();
            s.append("nightly-");
            s.append(ds.as_str());
            proof {
                let (y, m, d) = choose|y: int, m: int, d: int|
                    day_number_of(y, m, d) == date.num && ds@ == spec_date_string(y, m, d);
                assert(day_number_of(y, m, d) == date.num && ds@ == spec_date_string(y, m, d));
                assert(s@ =~= "nightly-"@ + spec_date_string(y, m, d));
                assert(exists|y2: int, m2: int, d2: int|
                    #![trigger spec_date_string(y2, m2, d2)]
                    day_number_of(y2, m2, d2) == date.num && s@ == "nightly-"@
                        + spec_date_string(y2, m2, d2));
            }
            Some(s)
        },
        ToolchainSpec::Ci { commit, alt } => {
            let mut s = String::new();
            if *alt {
                s.append("ci-alt-");
            } else {
                s.append("ci-");
            }
            s.append(commit.as_str());
            proof {
                if *alt {
                    assert(s@ =~= "ci-alt-"@ + commit@);
                } else {
                    assert(s@ =~= "ci-"@ + commit@);
                }
            }
            Some(s)
        },
    }
}

/// The range to display after a bisection: for a commit search, its own
/// first and last toolchains; for a nightly search, the explicitly
/// requested start day (when one was given) through the end day the
/// search used.
pub fn searched_range(
    start_bound: &Option<Bound>,
    end_date: Day,
    searched: &Vec<Toolchain>,
) -> (r: (ToolchainSpec, ToolchainSpec))
    requires
        searched@.len() >= 1,
    ensures
        ({
            let first = searched@[0].kind;
            let last = searched@[searched@.len() - 1].kind;
            if first is Ci && last is Ci {
                r.0 == first && r.1 == last
            } else {
                (match start_bound {
                    Some(Bound::Date(d)) => r.0 == (ToolchainSpec::Nightly { date: *d }),
                    _ => r.0 == first,
                }) && r.1 == (ToolchainSpec::Nightly { date: end_date })
            }
        }),
{
    let first = searched[0].kind.clone();
    let last = searched[searched.len() - 1].kind.clone();
    match (&first, &last) {
        (ToolchainSpec::Ci { .. }, ToolchainSpec::Ci { .. }) => (first, last),
        _ => {
            let start_spec = match start_bound {
                Some(Bound::Date(d)) => ToolchainSpec::Nightly { date: *d },
                _ => first,
            };
            (start_spec, ToolchainSpec::Nightly { date: end_date })
        },
    }
}

/// The two URL lines of the final report: the searched commit range and
/// the regressing commit. The caller wraps them in its report text.
pub fn final_report_urls(ci: &BisectionResult) -> (r: (String, String))
    requires
        ci.searched@.len() >= 1,
        ci.found < ci.searched@.len(),
        forall|i: int| 0 <= i < ci.searched@.len() ==> (#[trigger] ci.searched@[i]).kind is Ci,
    ensures
        r.0@ == "https://github.com/rust-lang/rust/compare/"@
            + ci.searched@[0].kind->Ci_commit@ + "..."@ + ci.searched@[ci.searched@.len()
            - 1].kind->Ci_commit@,
        r.1@ == "https://github.com/rust-lang/rust/commit/"@ + ci.searched@[
            ci.found as int
        ].kind->Ci_commit@,
{
    let first_sha = searched_sha(ci, 0);
    let last_sha = searched_sha(ci, ci.searched.len() - 1);
    let found_sha = searched_sha(ci, ci.found);
    let range = compare_url(first_sha.as_str(), last_sha.as_str());
    let commit = commit_url(found_sha.as_str());
    (range, commit)
}

fn searched_sha(res: &BisectionResult, i: usize) -> (r: String)
    requires
        i < res.searched@.len(),
        res.searched@[i as int].kind is Ci,
    ensures
        r@ == res.searched@[i as int].kind->Ci_commit@,
{
    match &res.searched[i].kind {
        ToolchainSpec::Ci { commit, .. } => commit.clone(),
        ToolchainSpec::Nightly { .. } => vstd::pervasive::unreached(),
    }
}

} // verus!
