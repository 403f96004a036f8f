use vstd::prelude::*;
use crate::contest::Contest;
use crate::error::RatingError;

verus! {

/// Contests whose end times never decrease from one to the next.
pub open spec fn chronological(s: Seq<Contest>) -> bool {
    forall|i: int| 0 < i < s.len() ==> #[trigger] s[i].time_seconds >= s[i - 1].time_seconds
}

/// `a` holds what `b` holds.
pub open spec fn same_contest(a: Contest, b: Contest) -> bool {
    a.name@ == b.name@ && a.url == b.url && a.time_seconds == b.time_seconds && a.standings@
        == b.standings@
}

/// Contest `x` comes before contest `y`: it ended earlier, or at the same
/// time and stands earlier in `s`.
pub open spec fn comes_before(s: Seq<Contest>, x: usize, y: usize) -> bool {
    s[x as int].time_seconds < s[y as int].time_seconds || (s[x as int].time_seconds
        == s[y as int].time_seconds && x < y)
}

/// `order` lists every position of `s` once, in chronological order, and
/// keeps the given order among contests that ended at the same time.
pub open spec fn stable_time_order(s: Seq<Contest>, order: Seq<usize>) -> bool {
    &&& order.len() == s.len()
    &&& forall|k: int| 0 <= k < order.len() ==> #[trigger] order[k] < s.len()
    &&& forall|a: int, b: int|
        0 <= a < b < order.len() ==> #[trigger] comes_before(s, order[a], order[b])
}

/// The positions of the contests in chronological order; ties keep their
/// given order.
pub fn chronological_order(contests: &Vec<Contest>) -> (r: Vec<usize>)
    ensures
        stable_time_order(contests@, r@),
{
    let ghost s = contests@;
    let n = contests.len();
    let mut order: Vec<usize> = Vec::with_capacity(n);
    let mut i: usize = 0;
    while i < n
        invariant
            n == s.len(),
            s == contests@,
            i <= n,
            order@.len() == i,
            forall|k: int| 0 <= k < order@.len() ==> #[trigger] order@[k] < i,
            forall|a: int, b: int|
                0 <= a < b < order@.len() ==> #[trigger] comes_before(s, order@[a], order@[b]),
        decreases n - i,
    {
        let t = contests[i].time_seconds;
        let mut p: usize = 0;
        while p < order.len() && contests[order[p]].time_seconds <= t
            invariant
                n == s.len(),
                s == contests@,
                i < n,
                t == s[i as int].time_seconds,
                p <= order@.len(),
                forall|k: int| 0 <= k < order@.len() ==> #[trigger] order@[k] < i,
                forall|a: int| 0 <= a < p ==> s[(#[trigger] order@[a]) as int].time_seconds <= t,
            decreases order@.len() - p,
        {
            p = p + 1;
        }
        let ghost old_order = order@;
        proof {
            assert forall|b: int| p <= b < old_order.len() implies s[old_order[b] as int].time_seconds
                > t by {
                if b > p {
                    assert(comes_before(s, old_order[p as int], old_order[b]));
                }
            }
        }
        order.insert(p, i);
        proof {
            assert forall|k: int| 0 <= k < order@.len() implies #[trigger] order@[k] < i + 1 by {
                if k < p {
                    assert(order@[k] == old_order[k]);
                } else if k > p {
                    assert(order@[k] == old_order[k - 1]);
                }
            }
            assert forall|a: int, b: int| 0 <= a < b < order@.len() implies #[trigger] comes_before(
                s,
                order@[a],
                order@[b],
            ) by {
                if b < p {
                    assert(order@[a] == old_order[a] && order@[b] == old_order[b]);
                } else if b == p {
                    assert(order@[a] == old_order[a]);
                } else if a < p {
                    assert(order@[a] == old_order[a] && order@[b] == old_order[b - 1]);
                } else if a == p {
                    assert(order@[b] == old_order[b - 1]);
                } else {
                    assert(order@[a] == old_order[a - 1] && order@[b] == old_order[b - 1]);
                    assert(comes_before(s, old_order[a - 1], old_order[b - 1]));
                }
            }
        }
        i = i + 1;
    }
    order
}

/// An in-memory dataset: contests held in processing order, read by index.
pub struct ContestList(pub Vec<Contest>);

impl ContestList {
    pub fn new(contests: Vec<Contest>) -> (r: ContestList)
        ensures
            r.0@ == contests@,
    {
        ContestList(contests)
    }

    pub fn len(&self) -> (r: usize)
        ensures
            r == self.0@.len(),
    {
        self.0.len()
    }

    /// A copy of the contest at `index`.
    pub fn get(&self, index: usize) -> (r: Contest)
        requires
            index < self.0@.len(),
        ensures
            r.name@ == self.0@[index as int].name@,
            r.url == self.0@[index as int].url,
            r.time_seconds == self.0@[index as int].time_seconds,
            r.standings@ == self.0@[index as int].standings@,
    {
        self.0[index].copy()
    }

    /// The contests rearranged into a dataset that a run can take: in
    /// chronological order, ties kept in their given order. Each contest of
    /// the result is a copy of the one at the same place of `order`.
    pub fn sorted(contests: &Vec<Contest>) -> (r: ContestList)
        ensures
            chronological(r.0@),
            exists|order: Seq<usize>|
                #![trigger stable_time_order(contests@, order)]
                stable_time_order(contests@, order) && forall|k: int|
                    0 <= k < order.len() ==> #[trigger] same_contest(
                        r.0@[k],
                        contests@[order[k] as int],
                    ),
    {
        let order = chronological_order(contests);
        let n = order.len();
        let mut out: Vec<Contest> = Vec::with_capacity(n);
        let mut i: usize = 0;
        while i < n
            invariant
                n == order@.len(),
                stable_time_order(contests@, order@),
                i <= n,
                out@.len() == i,
                forall|k: int|
                    0 <= k < i ==> #[trigger] same_contest(out@[k], contests@[order@[k] as int]),
            decreases n - i,
        {
            out.push(contests[order[i]].copy());
            i = i + 1;
        }
        proof {
            assert forall|k: int| 0 < k < out@.len() implies #[trigger] out@[k].time_seconds
                >= out@[k - 1].time_seconds by {
                assert(same_contest(out@[k], contests@[order@[k] as int]));
                assert(same_contest(out@[k - 1], contests@[order@[k - 1] as int]));
                assert(comes_before(contests@, order@[k - 1], order@[k]));
            }
        }
        ContestList(out)
    }

    /// The contest at `index`, or a bounds error past the end.
    pub fn try_get(&self, index: usize) -> (r: Result<Contest, RatingError>)
        ensures
            index >= self.0@.len() ==> r matches Err(RatingError::Bounds),
            index < self.0@.len() ==> (r matches Ok(c) && c.name@ == self.0@[index as int].name@
                && c.url == self.0@[index as int].url && c.time_seconds == self.0@[
                index as int].time_seconds && c.standings@ == self.0@[index as int].standings@),
    {
        if index < self.0.len() {
            Ok(self.get(index))
        } else {
            Err(RatingError::Bounds)
        }
    }

    /// Whether the contests are in non-decreasing order of end time, the
    /// order in which a run must see them.
    pub fn is_chronological(&self) -> (r: bool)
        ensures
            r == chronological(self.0@),
    {
        let n = self.0.len();
        let mut i: usize = 1;
        while i < n
            invariant
                n == self.0@.len(),
                1 <= i,
                forall|k: int| 0 < k < i && k < n ==> #[trigger] self.0@[k].time_seconds
                    >= self.0@[k - 1].time_seconds,
            decreases n - i,
        {
            if self.0[i].time_seconds < self.0[i - 1].time_seconds {
                return false;
            }
            i = i + 1;
        }
        true
    }
}

} // verus!
