//! The ternary bisection engine: over a sequence of candidates indexed
//! `0 .. n`, find the least index whose probe answers `Yes`, under a
//! predicate that is assumed monotone (`No` everywhere below some true
//! boundary, `Yes` from it on) but whose probes may individually fail
//! and answer `Unknown`.
//!
//! The engine is a state machine: `next_probe` names the index to probe
//! next, the caller performs the probe and feeds the verdict back through
//! `record`, and `result` yields the boundary once `next_probe` is
//! exhausted. An `Unknown` verdict is retried once at the same index;
//! an index that answers `Unknown` twice is abandoned and the nearest
//! untried index (preferring the right-hand neighbour on ties) is probed
//! instead. If every index of the remaining interval has been abandoned,
//! the engine reports the interval midpoint and flags the answer as
//! inconclusive.

use vstd::prelude::*;

verus! {

/// The verdict of one probe of one candidate.
#[derive(Clone, Copy, Debug, PartialEq, Eq, Structural)]
pub enum Satisfies {
    Yes,
    No,
    Unknown,
}

/// State of one bisection over `n` candidates.
///
/// `lo` and `hi` delimit the half-open interval still in play: every
/// conclusive `No` moved `lo` up past the probed index, and every
/// conclusive `Yes` moved `hi` down onto it (so once `best_found` holds,
/// `hi` itself is a probed `Yes`). `pending` is an index whose first
/// probe answered `Unknown` and which is retried next; `dead` marks the
/// indices abandoned after a second `Unknown`.
pub struct Bisector {
    pub n: usize,
    pub lo: usize,
    pub hi: usize,
    pub best_found: bool,
    pub pending: Option<usize>,
    pub dead: Vec<bool>,
}

/// How many indices of `s` in `[lo, hi)` are still live (not abandoned).
pub closed spec fn live_count(s: Seq<bool>, lo: int, hi: int) -> int
    decreases hi - lo,
{
    if lo >= hi {
        0
    } else {
        (if !s[lo] {
            1int
        } else {
            0int
        }) + live_count(s, lo + 1, hi)
    }
}

pub proof fn lemma_live_count_nonneg(s: Seq<bool>, lo: int, hi: int)
    ensures
        live_count(s, lo, hi) >= 0,
    decreases hi - lo,
{
    if lo < hi {
        lemma_live_count_nonneg(s, lo + 1, hi);
    }
}

pub proof fn lemma_live_count_split(s: Seq<bool>, lo: int, mid: int, hi: int)
    requires
        lo <= mid <= hi,
    ensures
        live_count(s, lo, hi) == live_count(s, lo, mid) + live_count(s, mid, hi),
    decreases mid - lo,
{
    if lo < mid {
        lemma_live_count_split(s, lo + 1, mid, hi);
    }
}

/// `live_count` reads only the values inside `[lo, hi)`.
pub proof fn lemma_live_count_congruent(s: Seq<bool>, t: Seq<bool>, lo: int, hi: int)
    requires
        0 <= lo,
        hi <= s.len(),
        s.len() == t.len(),
        forall|i: int| lo <= i < hi ==> s[i] == t[i],
    ensures
        live_count(s, lo, hi) == live_count(t, lo, hi),
    decreases hi - lo,
{
    if lo < hi {
        lemma_live_count_congruent(s, t, lo + 1, hi);
    }
}

/// Abandoning one live index inside `[lo, hi)` lowers the live count by one.
pub proof fn lemma_live_count_update(s: Seq<bool>, i: int, lo: int, hi: int)
    requires
        0 <= lo <= i < hi <= s.len(),
        !s[i],
    ensures
        live_count(s.update(i, true), lo, hi) == live_count(s, lo, hi) - 1,
    decreases i - lo,
{
    let t = s.update(i, true);
    if lo == i {
        assert(live_count(t, lo, hi) == 0 + live_count(t, lo + 1, hi));
        lemma_live_count_congruent(s, t, lo + 1, hi);
    } else {
        lemma_live_count_update(s, i, lo + 1, hi);
    }
}

/// A range with no abandoned index has one live slot per index.
pub proof fn lemma_live_count_full(s: Seq<bool>, lo: int, hi: int)
    requires
        forall|i: int| lo <= i < hi ==> !(#[trigger] s[i]),
    ensures
        live_count(s, lo, hi) == (if hi >= lo {
            hi - lo
        } else {
            0int
        }),
    decreases hi - lo,
{
    if lo < hi {
        lemma_live_count_full(s, lo + 1, hi);
    }
}

/// A live index inside `[lo, hi)` makes the live count positive.
pub proof fn lemma_live_count_at_least_one(s: Seq<bool>, i: int, lo: int, hi: int)
    requires
        0 <= lo <= i < hi <= s.len(),
        !s[i],
    ensures
        live_count(s, lo, hi) >= 1,
{
    lemma_live_count_split(s, lo, i, hi);
    assert(live_count(s, i, hi) == 1 + live_count(s, i + 1, hi));
    lemma_live_count_nonneg(s, lo, i);
    lemma_live_count_nonneg(s, i + 1, hi);
}

impl Bisector {
    pub open spec fn inv(self) -> bool {
        &&& 1 <= self.n
        &&& self.lo <= self.hi <= self.n
        &&& self.dead@.len() == self.n
        &&& (self.best_found ==> self.hi < self.n)
        &&& (!self.best_found ==> self.hi == self.n)
        &&& (self.pending matches Some(i) ==> self.lo <= i < self.hi && !self.dead@[i as int])
    }

    /// The midpoint of the interval still in play.
    pub open spec fn spec_midpoint(self) -> int {
        self.lo + (self.hi - self.lo) / 2
    }

    pub open spec fn interval_len(self) -> int {
        self.hi - self.lo
    }

    /// Every index of the (non-empty) remaining interval was abandoned:
    /// the probes have starved the search and the answer is a guess.
    pub open spec fn saturated(self) -> bool {
        self.lo < self.hi && forall|i: int| self.lo <= i < self.hi ==> #[trigger] self.dead@[i]
    }

    /// Termination measure for a probe/record loop: each `record` call
    /// strictly decreases it.
    pub open spec fn fuel(self) -> int {
        2 * live_count(self.dead@, self.lo as int, self.hi as int) + (if self.pending is None {
            1int
        } else {
            0int
        })
    }

    /// The nearest live index at distance `k` or more from the midpoint,
    /// right-hand side preferred on equal distance.
    pub open spec fn spec_scan(self, k: int) -> Option<usize>
        decreases self.hi - self.lo + 2 - k,
    {
        let m = self.spec_midpoint();
        if self.hi - self.lo + 2 - k <= 0 {
            None
        } else if m + k >= self.hi && m - k < self.lo {
            None
        } else if m + k < self.hi && !self.dead@[m + k] {
            Some((m + k) as usize)
        } else if m - k >= self.lo && !self.dead@[m - k] {
            Some((m - k) as usize)
        } else {
            self.spec_scan(k + 1)
        }
    }

    /// The index the engine wants probed next, if any.
    pub open spec fn spec_next_probe(self) -> Option<usize> {
        if self.lo >= self.hi {
            None
        } else if self.pending is Some {
            self.pending
        } else if !self.dead@[self.spec_midpoint()] {
            Some(self.spec_midpoint() as usize)
        } else {
            self.spec_scan(1)
        }
    }

    proof fn lemma_scan(self, k: int)
        requires
            self.inv(),
            self.lo < self.hi,
            1 <= k,
        ensures
            (self.spec_scan(k) matches Some(i) ==> self.lo <= i < self.hi
                && !self.dead@[i as int]),
            self.spec_scan(k) is None ==> forall|i: int|
                self.lo <= i < self.hi && (i >= self.spec_midpoint() + k || i
                    <= self.spec_midpoint() - k) ==> #[trigger] self.dead@[i],
        decreases self.hi - self.lo + 2 - k,
    {
        let m = self.spec_midpoint();
        if self.hi - self.lo + 2 - k <= 0 {
            // k exceeds every distance that fits in the interval, so no
            // index is at distance k or more from the midpoint.
        } else if m + k >= self.hi && m - k < self.lo {
        } else if m + k < self.hi && !self.dead@[m + k] {
        } else if m - k >= self.lo && !self.dead@[m - k] {
        } else {
            self.lemma_scan(k + 1);
        }
    }

    /// A fresh bisection over `n` candidates.
    pub fn new(n: usize) -> (r: Bisector)
        requires
            n >= 1,
        ensures
            r.inv(),
            r.n == n,
            r.lo == 0,
            r.hi == n,
            !r.best_found,
            r.pending is None,
            forall|i: int| 0 <= i < n ==> !(#[trigger] r.dead@[i]),
            r.spec_next_probe() is Some,
    {
        Bisector { n, lo: 0, hi: n, best_found: false, pending: None, dead: vec![false; n] }
    }

    fn scan(&self, k: usize) -> (r: Option<usize>)
        requires
            self.inv(),
            self.lo < self.hi,
            1 <= k <= self.n + 1,
        ensures
            r == self.spec_scan(k as int),
        decreases self.hi - self.lo + 2 - k,
    {
        let m = self.lo + (self.hi - self.lo) / 2;
        let right_ok = k < self.hi - m;
        let left_ok = m - self.lo >= k;
        if !right_ok && !left_ok {
            None
        } else if right_ok && !self.dead[m + k] {
            Some(m + k)
        } else if left_ok && !self.dead[m - k] {
            Some(m - k)
        } else {
            self.scan(k + 1)
        }
    }

    /// The index to probe next: the retry of a pending `Unknown` if there
    /// is one, else the interval midpoint, else the nearest live index.
    /// `None` means the search is over — either the interval has emptied
    /// or every remaining index was abandoned.
    pub fn next_probe(&self) -> (r: Option<usize>)
        requires
            self.inv(),
        ensures
            r == self.spec_next_probe(),
            (r matches Some(i) ==> self.lo <= i < self.hi && !self.dead@[i as int]),
            r is None ==> self.lo >= self.hi || self.saturated(),
    {
        if self.lo >= self.hi {
            return None;
        }
        if let Some(i) = self.pending {
            return Some(i);
        }
        let m = self.lo + (self.hi - self.lo) / 2;
        if !self.dead[m] {
            return Some(m);
        }
        let r = self.scan(1);
        proof {
            self.lemma_scan(1);
        }
        r
    }

    /// What `record` does to the state, as a relation between pre- and
    /// post-states: usable where the post-state is quantified rather
    /// than held.
    pub open spec fn spec_recorded(pre: Bisector, i: usize, v: Satisfies, post: Bisector) -> bool {
        match v {
            Satisfies::Yes => post == (Bisector {
                hi: i,
                best_found: true,
                pending: None,
                ..pre
            }),
            Satisfies::No => post == (Bisector { lo: (i + 1) as usize, pending: None, ..pre }),
            Satisfies::Unknown => if pre.pending is Some {
                post == (Bisector { pending: None, dead: post.dead, ..pre }) && post.dead@
                    == pre.dead@.update(i as int, true)
            } else {
                post == (Bisector { pending: Some(i), ..pre })
            },
        }
    }

    /// Feed back the verdict of a probe of index `i`.
    ///
    /// A conclusive verdict narrows the interval — and, when `i` was the
    /// midpoint, at least halves it, which bounds the conclusive probes
    /// of a whole search logarithmically. A first `Unknown` schedules one
    /// retry of `i`; a second abandons it.
    pub fn record(&mut self, i: usize, v: Satisfies)
        requires
            old(self).inv(),
            old(self).lo <= i < old(self).hi,
            !old(self).dead@[i as int],
            (old(self).pending matches Some(j) ==> j == i),
        ensures
            final(self).inv(),
            Bisector::spec_recorded(*old(self), i, v, *final(self)),
            v is Yes ==> *final(self) == (Bisector {
                hi: i,
                best_found: true,
                pending: None,
                ..*old(self)
            }),
            v is No ==> *final(self) == (Bisector {
                lo: (i + 1) as usize,
                pending: None,
                ..*old(self)
            }),
            v is Unknown && old(self).pending is None ==> *final(self) == (Bisector {
                pending: Some(i),
                ..*old(self)
            }),
            v is Unknown && old(self).pending is Some ==> *final(self) == (Bisector {
                pending: None,
                dead: final(self).dead,
                ..*old(self)
            }) && final(self).dead@ == old(self).dead@.update(i as int, true),
            final(self).fuel() < old(self).fuel(),
            !(v is Unknown) && i == old(self).spec_midpoint() ==> final(self).interval_len()
                <= old(self).interval_len() / 2,
    {
        proof {
            lemma_live_count_at_least_one(self.dead@, i as int, self.lo as int, self.hi as int);
            lemma_live_count_nonneg(self.dead@, self.lo as int, self.hi as int);
        }
        match v {
            Satisfies::Yes => {
                proof {
                    lemma_live_count_split(self.dead@, self.lo as int, i as int, self.hi as int);
                    lemma_live_count_nonneg(self.dead@, self.lo as int, i as int);
                    lemma_live_count_at_least_one(
                        self.dead@,
                        i as int,
                        i as int,
                        self.hi as int,
                    );
                }
                self.hi = i;
                self.best_found = true;
                self.pending = None;
            },
            Satisfies::No => {
                proof {
                    lemma_live_count_split(
                        self.dead@,
                        self.lo as int,
                        i + 1 as int,
                        self.hi as int,
                    );
                    lemma_live_count_nonneg(self.dead@, i + 1 as int, self.hi as int);
                    lemma_live_count_at_least_one(self.dead@, i as int, self.lo as int, i + 1);
                }
                self.lo = i + 1;
                self.pending = None;
            },
            Satisfies::Unknown => {
                if self.pending.is_some() {
                    proof {
                        lemma_live_count_update(
                            self.dead@,
                            i as int,
                            self.lo as int,
                            self.hi as int,
                        );
                    }
                    self.pending = None;
                    self.dead.set(i, true);
                } else {
                    self.pending = Some(i);
                }
            },
        }
    }

    /// The boundary the search settled on: the least index probed `Yes`
    /// when there is one, the midpoint of a starved interval, and the
    /// last candidate when every probe said `No`.
    pub open spec fn spec_result(self) -> int {
        if self.best_found {
            self.hi as int
        } else if self.lo < self.hi {
            self.spec_midpoint()
        } else {
            self.n - 1
        }
    }

    pub fn result(&self) -> (r: usize)
        requires
            self.inv(),
        ensures
            r == self.spec_result(),
            r < self.n,
    {
        if self.best_found {
            self.hi
        } else if self.lo < self.hi {
            self.lo + (self.hi - self.lo) / 2
        } else {
            self.n - 1
        }
    }

    /// The progress line before a probe: how many candidates remain in
    /// play after the one probed next, and the estimated number of
    /// halving steps left.
    pub fn progress(&self) -> (r: (usize, usize))
        requires
            self.inv(),
            self.lo < self.hi,
        ensures
            r.0 == self.interval_len() - 1,
            r.1 == log2_up(self.interval_len()),
    {
        let len = self.hi - self.lo;
        let mut m = len;
        let mut steps: usize = 0;
        while m > 1
            invariant
                1 <= m <= len,
                steps + log2_up(m as int) == log2_up(len as int),
            decreases m,
        {
            proof {
                lemma_log2_up_le(len as int);
                lemma_log2_up_nonneg(((m + 1) / 2) as int);
                assert(m / 2 + m % 2 == (m + 1) / 2);
            }
            m = m / 2 + m % 2;
            steps = steps + 1;
        }
        (len - 1, steps)
    }

    /// Whether the answer is only a guess: the remaining interval was
    /// non-empty but every index of it was abandoned after two `Unknown`
    /// verdicts. Callers should attach a warning to the result.
    pub fn inconclusive(&self) -> (r: bool)
        requires
            self.inv(),
        ensures
            r == self.saturated(),
    {
        if self.lo >= self.hi {
            return false;
        }
        let mut j: usize = self.lo;
        while j < self.hi
            invariant
                self.inv(),
                self.lo <= j <= self.hi,
                forall|i: int| self.lo <= i < j ==> #[trigger] self.dead@[i],
            decreases self.hi - j,
        {
            if !self.dead[j] {
                return false;
            }
            j += 1;
        }
        true
    }
}

/// How many halvings bring `n` candidates down to one.
pub open spec fn log2_up(n: int) -> int
    decreases n,
{
    if n <= 1 {
        0
    } else {
        1 + log2_up((n + 1) / 2)
    }
}

pub proof fn lemma_log2_up_nonneg(n: int)
    ensures
        log2_up(n) >= 0,
    decreases n,
{
    if n > 1 {
        lemma_log2_up_nonneg((n + 1) / 2);
    }
}

pub proof fn lemma_log2_up_le(n: int)
    ensures
        log2_up(n) <= (if n >= 0 {
            n
        } else {
            0int
        }),
    decreases n,
{
    if n > 1 {
        lemma_log2_up_le((n + 1) / 2);
    }
}

pub proof fn lemma_log2_up_ordered(a: int, b: int)
    requires
        0 <= a <= b,
    ensures
        log2_up(a) <= log2_up(b),
    decreases b,
{
    if b <= 1 {
    } else if a <= 1 {
        lemma_log2_up_nonneg((b + 1) / 2);
    } else {
        lemma_log2_up_ordered((a + 1) / 2, (b + 1) / 2);
    }
}

/// The other half of the probe bound: a conclusive verdict on the
/// midpoint leaves at most half the interval (the `record` contract),
/// and halving drops `log2_up` of the interval length by at least one.
/// An `Unknown` costs at most one retry of its index on top.
pub proof fn lemma_halving_drops_log(len: int, shrunk: int)
    requires
        2 <= len,
        0 <= shrunk <= len / 2,
    ensures
        log2_up(shrunk) <= log2_up(len) - 1,
{
    lemma_log2_up_ordered(shrunk, len / 2);
    lemma_log2_up_ordered(len / 2, (len + 1) / 2);
}

/// The shifted form used to count a whole run: a conclusive probe of an
/// interval of length `len` leaves at most `len / 2`, and that drops
/// `log2_up(len + 1)` by at least one — also when `len` is 1 and the
/// probe empties the interval. Iterated from `n`, this bounds the
/// conclusive probes of a run by `log2_up(n + 1)`, which is
/// `floor(log2 n) + 1`, the ceiling of `log2 n` whenever `n` is not a
/// power of two.
pub proof fn lemma_emptying_drops_log(len: int, shrunk: int)
    requires
        1 <= len,
        0 <= shrunk <= len / 2,
    ensures
        log2_up(shrunk + 1) <= log2_up(len + 1) - 1,
{
    lemma_log2_up_ordered(shrunk + 1, len / 2 + 1);
    assert(len / 2 + 1 == (len + 2) / 2);
    assert(log2_up(len + 1) == 1 + log2_up((len + 2) / 2));
}

/// The verdict table is fully conclusive.
pub open spec fn conclusive(vs: Seq<Satisfies>) -> bool {
    forall|i: int| 0 <= i < vs.len() ==> !((#[trigger] vs[i]) is Unknown)
}

/// `Yes` answers are upward closed: the predicate flips from `No` to
/// `Yes` at most once along the sequence.
pub open spec fn monotone(vs: Seq<Satisfies>) -> bool {
    forall|i: int, j: int|
        0 <= i <= j < vs.len() && (#[trigger] vs[i]) is Yes ==> (#[trigger] vs[j]) is Yes
}

/// `k` is the true boundary of the table: the least index answering `Yes`.
pub open spec fn is_boundary(vs: Seq<Satisfies>, k: int) -> bool {
    &&& 0 <= k < vs.len()
    &&& vs[k] is Yes
    &&& forall|i: int| 0 <= i < k ==> !((#[trigger] vs[i]) is Yes)
}

/// Run a whole bisection against a fixed verdict table: probe the index
/// the engine asks for, answer from the table, repeat until the engine
/// stops. For a conclusive monotone table this provably returns the true
/// boundary; for an all-`No` table it returns the last index (which a
/// caller's final re-probe will then contradict).
pub fn bisect_over(verdicts: &Vec<Satisfies>) -> (r: usize)
    requires
        verdicts.len() >= 1,
    ensures
        r < verdicts.len(),
        forall|k: int|
            conclusive(verdicts@) && monotone(verdicts@) && is_boundary(verdicts@, k) ==> r == k,
        conclusive(verdicts@) && (forall|i: int|
            0 <= i < verdicts.len() ==> (#[trigger] verdicts@[i]) is No) ==> r == verdicts.len()
            - 1,
{
    let (r, _) = bisect_over_counted(verdicts);
    r
}

/// The same run with its probes counted: any table costs at most one
/// probe per live slot plus the retries, `2 n + 1` in all, and a fully
/// conclusive table costs at most `log2_up(n + 1)` probes — that is
/// `floor(log2 n) + 1` — since every conclusive verdict lands on the
/// midpoint and halves the interval.
pub fn bisect_over_counted(verdicts: &Vec<Satisfies>) -> (r: (usize, Ghost<int>))
    requires
        verdicts.len() >= 1,
    ensures
        r.0 < verdicts.len(),
        forall|k: int|
            conclusive(verdicts@) && monotone(verdicts@) && is_boundary(verdicts@, k) ==> r.0 == k,
        conclusive(verdicts@) && (forall|i: int|
            0 <= i < verdicts.len() ==> (#[trigger] verdicts@[i]) is No) ==> r.0 == verdicts.len()
            - 1,
        r.1@ <= 2 * verdicts@.len() + 1,
        conclusive(verdicts@) ==> r.1@ <= log2_up(verdicts@.len() as int + 1),
{
    let mut b = Bisector::new(verdicts.len());
    let mut done = false;
    let ghost mut probes: int = 0;
    proof {
        lemma_live_count_full(b.dead@, b.lo as int, b.hi as int);
    }
    while !done
        invariant
            b.inv(),
            b.n == verdicts.len(),
            b.best_found ==> verdicts@[b.hi as int] is Yes,
            monotone(verdicts@) ==> forall|i: int|
                0 <= i < b.lo ==> !((#[trigger] verdicts@[i]) is Yes),
            conclusive(verdicts@) ==> b.pending is None && forall|i: int|
                0 <= i < b.n ==> !(#[trigger] b.dead@[i]),
            done ==> b.lo >= b.hi || b.saturated(),
            0 <= probes,
            probes + b.fuel() <= 2 * verdicts@.len() + 1,
            conclusive(verdicts@) ==> probes + log2_up(b.interval_len() + 1) <= log2_up(
                verdicts@.len() as int + 1,
            ),
        decreases b.fuel() + (if done {
            0int
        } else {
            1int
        }),
    {
        match b.next_probe() {
            None => {
                done = true;
                proof {
                    lemma_live_count_nonneg(b.dead@, b.lo as int, b.hi as int);
                }
            },
            Some(i) => {
                let ghost prev: Bisector = b;
                let v = verdicts[i];
                b.record(i, v);
                proof {
                    probes = probes + 1;
                    lemma_live_count_nonneg(b.dead@, b.lo as int, b.hi as int);
                    if conclusive(verdicts@) {
                        // a conclusive probe sits on the midpoint and
                        // at least halves the interval
                        assert(i == prev.spec_midpoint());
                        lemma_emptying_drops_log(prev.interval_len(), b.interval_len());
                    }
                    if monotone(verdicts@) {
                        assert forall|x: int| 0 <= x < b.lo implies !((#[trigger] verdicts@[x])
                            is Yes) by {
                            if verdicts@[x] is Yes {
                                // monotone lifts a Yes at x to the probed index
                                assert(verdicts@[i as int] is Yes);
                            }
                        };
                    }
                }
            },
        }
    }
    let r = b.result();
    proof {
        lemma_live_count_nonneg(b.dead@, b.lo as int, b.hi as int);
        if conclusive(verdicts@) {
            // no index is ever abandoned, so the search can only have
            // stopped with an empty interval
            if b.saturated() {
                assert(b.dead@[b.lo as int]);
            }
            assert(b.lo == b.hi);
            assert forall|k: int| monotone(verdicts@) && is_boundary(verdicts@, k) implies r == k
                by {
                if b.best_found {
                    assert(verdicts@[b.hi as int] is Yes);
                    if k > b.hi {
                        assert(!(verdicts@[b.hi as int] is Yes));
                    }
                    if k < b.lo {
                        assert(!(verdicts@[k] is Yes));
                    }
                } else {
                    assert(!(verdicts@[k] is Yes));
                }
            };
            if forall|i: int| 0 <= i < verdicts@.len() ==> (#[trigger] verdicts@[i]) is No {
                if b.best_found {
                    assert(verdicts@[b.hi as int] is No);
                }
            }
        }
    }
    (r, Ghost(probes))
}

/// Re-running a search changes nothing: the contract of `bisect_over`
/// pins the answer of any run over a conclusive monotone verdict table
/// to the table's true boundary, so two runs over the same table agree.
/// The premises below are exactly what that contract guarantees of each
/// run's result.
pub proof fn lemma_search_idempotent(vs: Seq<Satisfies>, k: int, r1: int, r2: int)
    requires
        conclusive(vs) && monotone(vs) && is_boundary(vs, k),
        forall|b: int| conclusive(vs) && monotone(vs) && is_boundary(vs, b) ==> r1 == b,
        forall|b: int| conclusive(vs) && monotone(vs) && is_boundary(vs, b) ==> r2 == b,
    ensures
        r1 == r2,
{
}

} // verus!
