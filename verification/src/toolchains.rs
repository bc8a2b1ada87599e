//! The data model of the search space: commits, toolchain
//! specifications, and the enumeration and validation of the candidate
//! sequences the bisector walks over.

use vstd::prelude::*;

use crate::dates::Day;
use crate::errors::BisectError;
use crate::text::{is_prefix, lex_lt, str_eq, str_lt, str_starts_with};

verus! {

/// A commit on the upstream first-parent history: hash, authored day
/// and one-line summary.
#[derive(Debug, PartialEq)]
pub struct Commit {
    pub sha: String,
    pub date: Day,
    pub summary: String,
}

impl Clone for Commit {
    /// A clone preserves the value.
    fn clone(&self) -> (r: Self)
        ensures
            r == *self,
    {
        Commit { sha: self.sha.clone(), date: self.date, summary: self.summary.clone() }
    }
}

/// A concrete installable toolchain: a nightly identified by its day,
/// or a continuous-integration build identified by its commit, possibly
/// in the alternative optimization profile.
#[derive(Debug, PartialEq)]
pub enum ToolchainSpec {
    Nightly { date: Day },
    Ci { commit: String, alt: bool },
}

impl Clone for ToolchainSpec {
    /// A clone preserves the value.
    fn clone(&self) -> (r: Self)
        ensures
            r == *self,
    {
        match self {
            ToolchainSpec::Nightly { date } => ToolchainSpec::Nightly { date: *date },
            ToolchainSpec::Ci { commit, alt } => ToolchainSpec::Ci {
                commit: commit.clone(),
                alt: *alt,
            },
        }
    }
}

/// A toolchain to probe: a specification, the host triple, and the
/// target triples whose standard library is installed alongside.
#[derive(Clone, Debug, PartialEq)]
pub struct Toolchain {
    pub kind: ToolchainSpec,
    pub host: String,
    pub std_targets: Vec<String>,
}

/// The canonical target list of a host/target pair: sorted and
/// deduplicated, so equal specifications give equal toolchains.
pub open spec fn canonical_of(host: Seq<char>, target: Seq<char>) -> Seq<Seq<char>> {
    if host == target {
        seq![host]
    } else if lex_lt(host, target) {
        seq![host, target]
    } else {
        seq![target, host]
    }
}

/// Build the canonical target list for a host/target pair.
pub fn canonical_targets(host: &String, target: &String) -> (r: Vec<String>)
    ensures
        r.deep_view() == canonical_of(host@, target@),
{
    let mut v: Vec<String> = Vec::new();
    if str_eq(host.as_str(), target.as_str()) {
        v.push(host.clone());
        proof {
            assert(v.deep_view() =~= canonical_of(host@, target@));
        }
    } else if str_lt(host.as_str(), target.as_str()) {
        v.push(host.clone());
        v.push(target.clone());
        proof {
            assert(v.deep_view() =~= canonical_of(host@, target@));
        }
    } else {
        v.push(target.clone());
        v.push(host.clone());
        proof {
            assert(v.deep_view() =~= canonical_of(host@, target@));
        }
    }
    v
}

/// One nightly toolchain per day of the inclusive range `[a, b]`, in
/// order, all sharing the host and the canonical target list.
pub fn toolchains_between(a: Day, b: Day, host: &String, target: &String) -> (r: Vec<Toolchain>)
    requires
        -0x8000_0000 <= a.num,
        b.num <= 0x7fff_ffff,
        b.num - a.num < 0x1_0000_0000,
    ensures
        a.num <= b.num ==> r@.len() == b.num - a.num + 1,
        a.num > b.num ==> r@.len() == 0,
        forall|i: int|
            0 <= i < r@.len() ==> (#[trigger] r@[i]).kind == (ToolchainSpec::Nightly {
                date: Day { num: (a.num + i) as i64 },
            }) && r@[i].host@ == host@ && r@[i].std_targets.deep_view() == canonical_of(
                host@,
                target@,
            ),
{
    let mut toolchains: Vec<Toolchain> = Vec::new();
    if a.num > b.num {
        return toolchains;
    }
    let mut date = a;
    while date.num <= b.num
        invariant
            a.num <= date.num <= b.num + 1,
            b.num <= 0x7fff_ffff,
            -0x8000_0000 <= a.num,
            toolchains@.len() == date.num - a.num,
            forall|i: int|
                0 <= i < toolchains@.len() ==> (#[trigger] toolchains@[i]).kind
                    == (ToolchainSpec::Nightly { date: Day { num: (a.num + i) as i64 } })
                    && toolchains@[i].host@ == host@ && toolchains@[i].std_targets.deep_view()
                    == canonical_of(host@, target@),
        decreases b.num - date.num + 1,
    {
        let t = Toolchain {
            kind: ToolchainSpec::Nightly { date },
            host: host.clone(),
            std_targets: canonical_targets(host, target),
        };
        toolchains.push(t);
        date = date.succ();
    }
    toolchains
}

/// One CI toolchain per commit, in order, all sharing the profile, the
/// host and the canonical target list.
pub fn commits_to_toolchains(commits: &Vec<Commit>, alt: bool, host: &String, target: &String) -> (r:
    Vec<Toolchain>)
    ensures
        r@.len() == commits@.len(),
        forall|i: int|
            0 <= i < r@.len() ==> (#[trigger] r@[i]).kind == (ToolchainSpec::Ci {
                commit: r@[i].kind->Ci_commit,
                alt,
            }) && r@[i].kind->Ci_commit@ == commits@[i].sha@ && r@[i].host@ == host@
                && r@[i].std_targets.deep_view() == canonical_of(host@, target@),
{
    let mut toolchains: Vec<Toolchain> = Vec::new();
    let mut j: usize = 0;
    while j < commits.len()
        invariant
            j <= commits@.len(),
            toolchains@.len() == j,
            forall|i: int|
                0 <= i < toolchains@.len() ==> (#[trigger] toolchains@[i]).kind
                    == (ToolchainSpec::Ci { commit: toolchains@[i].kind->Ci_commit, alt })
                    && toolchains@[i].kind->Ci_commit@ == commits@[i].sha@ && toolchains@[i].host@
                    == host@ && toolchains@[i].std_targets.deep_view() == canonical_of(
                    host@,
                    target@,
                ),
        decreases commits@.len() - j,
    {
        let t = Toolchain {
            kind: ToolchainSpec::Ci { commit: commits[j].sha.clone(), alt },
            host: host.clone(),
            std_targets: canonical_targets(host, target),
        };
        toolchains.push(t);
        j += 1;
    }
    toolchains
}

/// A commit still inside the upstream retention window on the given
/// day: artifacts older than 167 days are deleted.
pub open spec fn within_retention(c: Commit, today: Day) -> bool {
    today.num - c.date.num < 167
}

/// The commits are in non-decreasing authored-day order.
pub open spec fn commits_sorted(cs: Seq<Commit>) -> bool {
    forall|i: int| 0 <= i < cs.len() - 1 ==> (#[trigger] cs[i].date.num) <= cs[i + 1].date.num
}

pub fn check_commits_sorted(cs: &Vec<Commit>) -> (r: bool)
    ensures
        r == commits_sorted(cs@),
{
    let n = cs.len();
    if n == 0 {
        return true;
    }
    let mut i: usize = 0;
    while i < n - 1
        invariant
            1 <= n == cs@.len(),
            i < n,
            forall|j: int| 0 <= j < i ==> (#[trigger] cs@[j].date.num) <= cs@[j + 1].date.num,
        decreases n - i,
    {
        if cs[i].date.num > cs[i + 1].date.num {
            return false;
        }
        i += 1;
    }
    true
}

/// Drop the commits that fell out of the retention window, keeping
/// order.
pub fn filter_retention(commits: &Vec<Commit>, today: Day) -> (r: Vec<Commit>)
    requires
        -0x8000_0000 <= today.num <= 0x7fff_ffff,
    ensures
        r@ == commits@.filter(|c: Commit| within_retention(c, today)),
{
    let mut kept: Vec<Commit> = Vec::new();
    let mut j: usize = 0;
    proof {
        assert(commits@.subrange(0, 0).filter(|c: Commit| within_retention(c, today))
            =~= Seq::<Commit>::empty()) by {
            reveal(Seq::filter);
        };
    }
    while j < commits.len()
        invariant
            j <= commits@.len(),
            -0x8000_0000 <= today.num <= 0x7fff_ffff,
            kept@ == commits@.subrange(0, j as int).filter(
                |c: Commit| within_retention(c, today),
            ),
        decreases commits@.len() - j,
    {
        let ghost pre = commits@.subrange(0, j as int);
        let ghost post = commits@.subrange(0, j + 1 as int);
        let c = &commits[j];
        if c.date.num > today.num - 167 {
            kept.push(c.clone());
        }
        proof {
            assert(post.drop_last() =~= pre);
            assert(post.last() == commits@[j as int]);
            reveal(Seq::filter);
            assert(post.filter(|c: Commit| within_retention(c, today)) == pre.filter(
                |c: Commit| within_retention(c, today),
            ) + (if within_retention(commits@[j as int], today) {
                seq![commits@[j as int]]
            } else {
                Seq::<Commit>::empty()
            }));
            if within_retention(commits@[j as int], today) {
                assert(kept@ =~= pre.filter(|c: Commit| within_retention(c, today)) + seq![
                    commits@[j as int],
                ]);
            } else {
                assert(kept@ =~= pre.filter(|c: Commit| within_retention(c, today)) + Seq::<
                    Commit,
                >::empty());
            }
        }
        j += 1;
    }
    proof {
        assert(commits@.subrange(0, commits@.len() as int) =~= commits@);
    }
    kept
}

/// Validate and trim the commit list for the CI phase: keep only the
/// retention window; an empty remainder is the retention diagnostic;
/// and when the right endpoint was pinned to a concrete reference, the
/// last remaining commit must carry it as a hash prefix.
pub fn prepare_ci_commits(commits: &Vec<Commit>, end_ref: &str, today: Day) -> (r: Result<
    Vec<Commit>,
    BisectError,
>)
    requires
        -0x8000_0000 <= today.num <= 0x7fff_ffff,
    ensures
        ({
            let kept = commits@.filter(|c: Commit| within_retention(c, today));
            &&& (kept.len() == 0 <==> r == Result::<Vec<Commit>, BisectError>::Err(
                BisectError::RetentionExhausted,
            ))
            &&& (r matches Ok(v) ==> v@ == kept && kept.len() > 0 && (end_ref@
                != "origin/master"@ ==> is_prefix(end_ref@, kept.last().sha@)))
            &&& (kept.len() > 0 && end_ref@ != "origin/master"@ && !is_prefix(
                end_ref@,
                kept.last().sha@,
            ) ==> r == Result::<Vec<Commit>, BisectError>::Err(BisectError::EndpointMismatch))
        }),
{
    let kept = filter_retention(commits, today);
    if kept.len() == 0 {
        return Err(BisectError::RetentionExhausted);
    }
    let last = &kept[kept.len() - 1];
    if !str_eq(end_ref, "origin/master") && !str_starts_with(last.sha.as_str(), end_ref) {
        return Err(BisectError::EndpointMismatch);
    }
    Ok(kept)
}

} // verus!
