//! Binary search for the point where a predicate turns true.
//!
//! The search looks in `min..max` for a value at which the predicate holds
//! while it fails at the value before. Of a predicate that, once true, stays
//! true, there is at most one such value, and it is the least at which the
//! predicate holds. The search is also given as a state machine, for a
//! predicate that the caller can only evaluate between the steps.
use vstd::prelude::*;

verus! {

/// `p` holds at `x`, which lies in `min..max`, and fails just before `x`
/// unless `x` is the first.
pub open spec fn turns_true_at(p: spec_fn(int) -> bool, min: int, max: int, x: int) -> bool {
    &&& min <= x < max
    &&& p(x)
    &&& x > min ==> !p(x - 1)
}

/// From the first value at which `p` holds on, it holds up to `max`.
pub open spec fn monotone(p: spec_fn(int) -> bool, min: int, max: int) -> bool {
    forall|i: int, j: int| min <= i <= j < max && #[trigger] p(i) ==> #[trigger] p(j)
}

/// `x` is the least value in `min..max` at which `p` holds.
pub open spec fn least(p: spec_fn(int) -> bool, min: int, max: int, x: int) -> bool {
    &&& min <= x < max
    &&& p(x)
    &&& forall|i: int| min <= i < x ==> !#[trigger] p(i)
}

/// Where a monotone predicate turns true, there is the least value at which
/// it holds.
pub proof fn lemma_turning_point_is_least(p: spec_fn(int) -> bool, min: int, max: int, x: int)
    requires
        monotone(p, min, max),
        turns_true_at(p, min, max, x),
    ensures
        least(p, min, max, x),
{
    assert forall|i: int| min <= i < x implies !#[trigger] p(i) by {
        if p(i) {
            assert(min <= i <= x - 1 < max);
        }
    }
}

/// A monotone predicate that fails at the last value fails everywhere.
pub proof fn lemma_false_at_end_is_false_everywhere(p: spec_fn(int) -> bool, min: int, max: int)
    requires
        monotone(p, min, max),
        min < max ==> !p(max - 1),
    ensures
        forall|i: int| min <= i < max ==> !#[trigger] p(i),
{
    assert forall|i: int| min <= i < max implies !#[trigger] p(i) by {
        if p(i) {
            assert(min <= i <= max - 1 < max);
        }
    }
}

/// The state of a search: `lo` is the value before the range or one at which
/// the predicate failed, `hi` is the end of the range or one at which it
/// held.
#[derive(Clone, Copy, Debug, PartialEq, Eq, Structural)]
pub struct Search {
    pub lo: i32,
    pub hi: i32,
    pub max: i32,
}

impl Search {
    /// What the search knows of `p` on the range that starts at `min`.
    pub open spec fn inv(self, p: spec_fn(int) -> bool, min: int) -> bool {
        &&& min - 1 <= self.lo < self.hi <= self.max
        &&& self.lo >= min ==> !p(self.lo as int)
        &&& self.hi < self.max ==> p(self.hi as int)
    }

    /// The value to try next, if the search has not ended.
    pub open spec fn pending(self) -> Option<i32> {
        if self.lo + 1 < self.hi {
            Some((self.lo + (self.hi - self.lo) / 2) as i32)
        } else {
            None
        }
    }

    /// The state after the predicate's value at the pending probe was
    /// taken.
    pub open spec fn after(self, holds: bool) -> Search {
        if holds {
            Search { hi: self.pending()->0, ..self }
        } else {
            Search { lo: self.pending()->0, ..self }
        }
    }

    /// The result of a search that has ended.
    pub open spec fn outcome(self) -> Option<i32> {
        if self.hi == self.max {
            None
        } else {
            Some(self.hi)
        }
    }

    /// Starts a search of `min..max`.
    pub fn new(min: i32, max: i32) -> (s: Search)
        requires
            i32::MIN < min <= max,
        ensures
            s == (Search { lo: (min - 1) as i32, hi: max, max }),
            forall|p: spec_fn(int) -> bool| #[trigger] s.inv(p, min as int),
    {
        Search { lo: min - 1, hi: max, max }
    }

    /// The value half way from `lo` to `hi`.
    fn middle(&self) -> (m: i32)
        requires
            self.lo < self.hi,
        ensures
            m == self.lo + (self.hi - self.lo) / 2,
    {
        let width = self.hi as i64 - self.lo as i64;
        (self.lo as i64 + width / 2) as i32
    }

    /// The value at which the predicate is wanted next, or `None` when the
    /// search has ended.
    pub fn probe(&self) -> (m: Option<i32>)
        requires
            self.lo < self.hi,
        ensures
            m == self.pending(),
            m matches Some(x) ==> self.lo < x < self.hi,
    {
        if self.lo as i64 + 1 < self.hi as i64 {
            Some(self.middle())
        } else {
            None
        }
    }

    /// Takes the predicate's value at the pending probe.
    pub fn advance(&mut self, holds: bool)
        requires
            old(self).lo < old(self).hi,
            old(self).pending() is Some,
        ensures
            *final(self) == old(self).after(holds),
            final(self).hi - final(self).lo < old(self).hi - old(self).lo,
            final(self).lo < final(self).hi,
            forall|p: spec_fn(int) -> bool, min: int|
                old(self).inv(p, min) && p(old(self).pending()->0 as int) == holds
                    ==> #[trigger] final(self).inv(p, min),
    {
        let m = self.middle();
        if holds {
            self.hi = m;
        } else {
            self.lo = m;
        }
    }

    /// The result of the search: `None` where the predicate held at no
    /// probe.
    pub fn result(&self) -> (r: Option<i32>)
        ensures
            r == self.outcome(),
            forall|p: spec_fn(int) -> bool, min: int|
                #[trigger] self.inv(p, min) && self.pending() is None ==> match r {
                    Some(x) => turns_true_at(p, min, self.max as int, x as int),
                    None => min < self.max ==> !p(self.max - 1),
                },
    {
        if self.hi == self.max {
            None
        } else {
            Some(self.hi)
        }
    }
}

/// Finds in `min..max` a value at which `f` turns true.
///
/// Returns `Some(x)` where `f` held at `x` and, unless `x` is `min`, failed
/// at `x - 1`; `None` where the range is empty or `f` failed at `max - 1`.
/// Of an `f` that, once true, stays true, `Some(x)` is the least value at
/// which it holds and `None` says that it holds nowhere in the range.
pub fn binary_search<F: Fn(i32) -> bool>(min: i32, max: i32, f: F) -> (r: Option<i32>)
    requires
        i32::MIN < min,
        forall|m: i32| min <= m < max ==> #[trigger] f.requires((m,)),
    ensures
        r matches Some(x) ==> {
            &&& min <= x < max
            &&& f.ensures((x,), true)
            &&& x > min ==> f.ensures(((x - 1) as i32,), false)
        },
        r is None ==> min >= max || f.ensures(((max - 1) as i32,), false),
{
    if min >= max {
        return None;
    }
    let mut s = Search::new(min, max);
    loop
        invariant
            min - 1 <= s.lo < s.hi <= max,
            s.max == max,
            i32::MIN < min < max,
            forall|m: i32| min <= m < max ==> #[trigger] f.requires((m,)),
            s.lo >= min ==> f.ensures((s.lo,), false),
            s.hi < max ==> f.ensures((s.hi,), true),
        decreases s.hi - s.lo,
    {
        match s.probe() {
            Some(m) => {
                let holds = f(m);
                s.advance(holds);
            },
            None => {
                return s.result();
            },
        }
    }
}

/// What [`binary_search`] returns for a function that computes a monotone
/// predicate: the least value at which the predicate holds, or `None` where
/// it holds nowhere in the range.
pub proof fn lemma_binary_search_of_monotone<F: Fn(i32) -> bool>(
    f: F,
    p: spec_fn(int) -> bool,
    min: i32,
    max: i32,
    r: Option<i32>,
)
    requires
        forall|m: i32, b: bool| min <= m < max && #[trigger] f.ensures((m,), b) ==> b == p(m as int),
        monotone(p, min as int, max as int),
        r matches Some(x) ==> {
            &&& min <= x < max
            &&& f.ensures((x,), true)
            &&& x > min ==> f.ensures(((x - 1) as i32,), false)
        },
        r is None ==> min >= max || f.ensures(((max - 1) as i32,), false),
    ensures
        r matches Some(x) ==> least(p, min as int, max as int, x as int),
        r is None ==> forall|i: int| min <= i < max ==> !#[trigger] p(i),
{
    match r {
        Some(x) => {
            lemma_turning_point_is_least(p, min as int, max as int, x as int);
        },
        None => {
            lemma_false_at_end_is_false_everywhere(p, min as int, max as int);
        },
    }
}

} // verus!
