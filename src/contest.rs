use vstd::prelude::*;

verus! {

/// One participant's line in a contest's standings: identity, then the
/// lowest and highest 0-indexed rank of its tie group.
pub type Standing = (String, usize, usize);

/// One rated event: its title, an optional source URL, the time at which it
/// ended (seconds since the Unix epoch) and its standings, best first.
pub struct Contest {
    pub name: String,
    pub url: Option<String>,
    pub time_seconds: u64,
    pub standings: Vec<Standing>,
}

/// The rank range of the entry at position `i` places it inside its own
/// range, within the contest, and every entry that the range covers shares
/// exactly that range. Together over all positions this says that the rank
/// ranges partition `[0, n)` into contiguous tie groups.
pub open spec fn rank_range_ok(s: Seq<Standing>, i: int) -> bool {
    &&& s[i].1 <= i <= s[i].2
    &&& s[i].2 < s.len()
    &&& forall|j: int| #![trigger s[j]] s[i].1 <= j <= s[i].2 ==> s[j].1 == s[i].1 && s[j].2 == s[i].2
}

/// No identity appears twice.
pub open spec fn distinct_names(s: Seq<Standing>) -> bool {
    forall|i: int, j: int| 0 <= i < j < s.len() ==> #[trigger] s[i].0@ != #[trigger] s[j].0@
}

/// The standings are well formed: tie groups partition the ranks and every
/// participant appears once.
pub open spec fn standings_valid(s: Seq<Standing>) -> bool {
    &&& forall|i: int| 0 <= i < s.len() ==> #[trigger] rank_range_ok(s, i)
    &&& distinct_names(s)
}

/// A copy of standings, entry by entry.
pub fn copy_standings(s: &Vec<Standing>) -> (r: Vec<Standing>)
    ensures
        r@ == s@,
{
    let mut r: Vec<Standing> = Vec::with_capacity(s.len());
    let mut i: usize = 0;
    while i < s.len()
        invariant
            i <= s@.len(),
            r@ == s@.subrange(0, i as int),
        decreases s@.len() - i,
    {
        let e = &s[i];
        r.push((e.0.clone(), e.1, e.2));
        i = i + 1;
        assert(r@ =~= s@.subrange(0, i as int));
    }
    assert(r@ =~= s@);
    r
}

/// Whether the rank range at `i` is well formed; looks only at the entries
/// that the range covers.
fn check_rank_range(s: &Vec<Standing>, i: usize) -> (r: bool)
    requires
        i < s@.len(),
    ensures
        r == rank_range_ok(s@, i as int),
{
    let lo = s[i].1;
    let hi = s[i].2;
    if !(lo <= i && i <= hi && hi < s.len()) {
        return false;
    }
    let mut j: usize = lo;
    while j <= hi
        invariant
            lo <= j,
            i < s@.len() <= usize::MAX,
            lo == s@[i as int].1,
            hi == s@[i as int].2,
            hi < s@.len(),
            forall|k: int| #![trigger s@[k]] lo <= k < j ==> s@[k].1 == lo && s@[k].2 == hi,
        decreases hi + 1 - j,
    {
        let e = &s[j];
        if e.1 != lo || e.2 != hi {
            return false;
        }
        assert(s@[j as int].1 == lo && s@[j as int].2 == hi);
        j = j + 1;
    }
    true
}

/// Whether no identity appears twice.
fn check_distinct_names(s: &Vec<Standing>) -> (r: bool)
    ensures
        r == distinct_names(s@),
{
    let n = s.len();
    let mut j: usize = 0;
    while j < n
        invariant
            n == s@.len(),
            j <= n,
            forall|a: int, b: int| 0 <= a < b < j ==> #[trigger] s@[a].0@ != #[trigger] s@[b].0@,
        decreases n - j,
    {
        let mut i: usize = 0;
        while i < j
            invariant
                n == s@.len(),
                i <= j < n,
                forall|a: int, b: int| 0 <= a < b < j ==> #[trigger] s@[a].0@ != #[trigger] s@[b].0@,
                forall|a: int| 0 <= a < i ==> #[trigger] s@[a].0@ != s@[j as int].0@,
            decreases j - i,
        {
            if s[i].0 == s[j].0 {
                return false;
            }
            i = i + 1;
        }
        j = j + 1;
    }
    true
}

/// Whether standings are well formed (see `standings_valid`).
pub fn validate_standings(s: &Vec<Standing>) -> (r: bool)
    ensures
        r == standings_valid(s@),
{
    let mut i: usize = 0;
    while i < s.len()
        invariant
            i <= s@.len(),
            forall|k: int| 0 <= k < i ==> #[trigger] rank_range_ok(s@, k),
        decreases s@.len() - i,
    {
        if !check_rank_range(s, i) {
            return false;
        }
        i = i + 1;
    }
    check_distinct_names(s)
}

impl Contest {
    /// A contest with the given standings; the name defaults to the empty
    /// string and the end time to 0.
    pub fn new(
        standings: Vec<Standing>,
        name: Option<String>,
        time_seconds: Option<u64>,
        url: Option<String>,
    ) -> (r: Contest)
        ensures
            r.standings@ == standings@,
            r.url == url,
            r.name@ == (match name {
                Some(n) => n@,
                None => Seq::<char>::empty(),
            }),
            r.time_seconds == (match time_seconds {
                Some(t) => t,
                None => 0u64,
            }),
    {
        let name = match name {
            Some(n) => n,
            None => String::new(),
        };
        let time_seconds = match time_seconds {
            Some(t) => t,
            None => 0,
        };
        Contest { name, url, time_seconds, standings }
    }

    pub fn name(&self) -> (r: &str)
        ensures
            r@ == self.name@,
    {
        self.name.as_str()
    }

    pub fn time_seconds(&self) -> (r: u64)
        ensures
            r == self.time_seconds,
    {
        self.time_seconds
    }

    pub fn standings(&self) -> (r: Vec<Standing>)
        ensures
            r@ == self.standings@,
    {
        copy_standings(&self.standings)
    }

    pub fn url(&self) -> (r: Option<&str>)
        ensures
            r.is_some() == self.url.is_some(),
            r.is_some() ==> r.unwrap()@ == self.url.unwrap()@,
    {
        match &self.url {
            Some(u) => Some(u.as_str()),
            None => None,
        }
    }

    /// A copy of the contest.
    pub fn copy(&self) -> (r: Contest)
        ensures
            r.name@ == self.name@,
            r.url == self.url,
            r.time_seconds == self.time_seconds,
            r.standings@ == self.standings@,
    {
        let url = match &self.url {
            Some(u) => Some(u.clone()),
            None => None,
        };
        Contest {
            name: self.name.clone(),
            url,
            time_seconds: self.time_seconds,
            standings: copy_standings(&self.standings),
        }
    }

    /// Whether the contest's standings are well formed.
    pub fn is_well_formed(&self) -> (r: bool)
        ensures
            r == standings_valid(self.standings@),
    {
        validate_standings(&self.standings)
    }
}

} // verus!
