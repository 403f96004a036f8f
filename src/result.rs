use vstd::prelude::*;
use crate::contest::{Contest, Standing};
use crate::event::{history_increasing, RatingEvent};

verus! {

/// One participant of a run and the events it collected, oldest first.
pub struct PlayerHistory {
    pub name: String,
    pub events: Vec<RatingEvent>,
}

/// What a run hands back: every participant's event history, and the
/// wall-clock cost of the run in nanoseconds.
pub struct RateResult {
    pub players_events: Vec<PlayerHistory>,
    pub nanos_elapsed: u64,
}

/// The number of events over all histories.
pub open spec fn total_events(p: Seq<PlayerHistory>) -> int
    decreases p.len(),
{
    if p.len() == 0 {
        0
    } else {
        total_events(p.drop_last()) + p.last().events@.len()
    }
}

/// Event `k` of history `h` belongs to the participant of standing `s` and
/// records, for the contest at position `idx`, the lowest rank of `s` as its
/// place.
pub open spec fn event_records(h: PlayerHistory, k: int, s: Standing, idx: usize) -> bool {
    h.name@ == s.0@ && h.events@[k].contest_index == idx && h.events@[k].place == s.1
}

/// Some history holds an event that records standing `s` at position `idx`.
pub open spec fn place_recorded(p: Seq<PlayerHistory>, s: Standing, idx: usize) -> bool {
    exists|a: int, k: int|
        0 <= a < p.len() && 0 <= k < p[a].events@.len() && #[trigger] event_records(
            p[a],
            k,
            s,
            idx,
        )
}

/// Converts one participant's events from the rating-system library's records.
fn convert_events(events: Vec<multi_skill::systems::PlayerEvent>) -> (r: Vec<RatingEvent>)
    ensures
        r@.len() == events@.len(),
        forall|k: int|
            0 <= k < r@.len() ==> (#[trigger] r@[k]).contest_index == events@[k].contest_index
                && r@[k].rating_mu == events@[k].rating_mu && r@[k].rating_sig
                == events@[k].rating_sig && r@[k].perf_score == events@[k].perf_score
                && r@[k].place == events@[k].place,
{
    let mut r: Vec<RatingEvent> = Vec::with_capacity(events.len());
    let mut i: usize = 0;
    while i < events.len()
        invariant
            i <= events@.len(),
            r@.len() == i,
            forall|k: int|
                0 <= k < i ==> (#[trigger] r@[k]).contest_index == events@[k].contest_index
                    && r@[k].rating_mu == events@[k].rating_mu && r@[k].rating_sig
                    == events@[k].rating_sig && r@[k].perf_score == events@[k].perf_score
                    && r@[k].place == events@[k].place,
        decreases events@.len() - i,
    {
        r.push(RatingEvent::from_event(events[i]));
        i = i + 1;
    }
    r
}

impl RateResult {
    /// Gathers the histories that a run left in the player pool, one entry
    /// per participant, each event taken over unchanged.
    pub fn from_histories(
        players: Vec<(String, Vec<multi_skill::systems::PlayerEvent>)>,
        nanos_elapsed: u64,
    ) -> (r: RateResult)
        ensures
            r.nanos_elapsed == nanos_elapsed,
            r.players_events@.len() == players@.len(),
            forall|a: int|
                0 <= a < players@.len() ==> (#[trigger] r.players_events@[a]).name@
                    == players@[a].0@ && r.players_events@[a].events@.len()
                    == players@[a].1@.len(),
            forall|a: int, k: int|
                0 <= a < players@.len() && 0 <= k < players@[a].1@.len() ==> (
                #[trigger] r.players_events@[a].events@[k]).contest_index
                    == players@[a].1@[k].contest_index && r.players_events@[a].events@[k].rating_mu
                    == players@[a].1@[k].rating_mu && r.players_events@[a].events@[k].rating_sig
                    == players@[a].1@[k].rating_sig && r.players_events@[a].events@[k].perf_score
                    == players@[a].1@[k].perf_score && r.players_events@[a].events@[k].place
                    == players@[a].1@[k].place,
    {
        let ghost orig = players@;
        let n = players.len();
        let mut players = players;
        let mut rev: Vec<(String, Vec<multi_skill::systems::PlayerEvent>)> = Vec::with_capacity(n);
        while players.len() > 0
            invariant
                n == orig.len(),
                players@.len() + rev@.len() == n,
                forall|a: int| 0 <= a < players@.len() ==> #[trigger] players@[a] == orig[a],
                forall|j: int| 0 <= j < rev@.len() ==> #[trigger] rev@[j] == orig[n - 1 - j],
            decreases players@.len(),
        {
            let last = players.pop().unwrap();
            rev.push(last);
        }
        let mut out: Vec<PlayerHistory> = Vec::with_capacity(n);
        let mut i: usize = 0;
        while i < n
            invariant
                n == orig.len(),
                i <= n,
                rev@.len() == n - i,
                forall|j: int| 0 <= j < rev@.len() ==> #[trigger] rev@[j] == orig[n - 1 - j],
                out@.len() == i,
                forall|a: int|
                    0 <= a < i ==> (#[trigger] out@[a]).name@ == orig[a].0@ && out@[a].events@.len()
                        == orig[a].1@.len(),
                forall|a: int, k: int|
                    0 <= a < i && 0 <= k < orig[a].1@.len() ==> (
                    #[trigger] out@[a].events@[k]).contest_index == orig[a].1@[k].contest_index
                        && out@[a].events@[k].rating_mu == orig[a].1@[k].rating_mu
                        && out@[a].events@[k].rating_sig == orig[a].1@[k].rating_sig
                        && out@[a].events@[k].perf_score == orig[a].1@[k].perf_score
                        && out@[a].events@[k].place == orig[a].1@[k].place,
            decreases n - i,
        {
            let entry = rev.pop().unwrap();
            let events = convert_events(entry.1);
            out.push(PlayerHistory { name: entry.0, events });
            i = i + 1;
        }
        RateResult { players_events: out, nanos_elapsed }
    }

    /// The number of participants.
    pub fn n_players(&self) -> (r: usize)
        ensures
            r == self.players_events@.len(),
    {
        self.players_events.len()
    }

    /// The number of events over all participants, or `usize::MAX` if that
    /// number does not fit.
    pub fn n_total_events(&self) -> (r: usize)
        ensures
            r == if total_events(self.players_events@) <= usize::MAX {
                total_events(self.players_events@)
            } else {
                usize::MAX as int
            },
    {
        let p = &self.players_events;
        let mut sum: usize = 0;
        let mut exact: bool = true;
        let mut i: usize = 0;
        while i < p.len()
            invariant
                i <= p@.len(),
                exact ==> sum == total_events(p@.subrange(0, i as int)),
                !exact ==> sum == usize::MAX && total_events(p@.subrange(0, i as int))
                    > usize::MAX,
            decreases p@.len() - i,
        {
            let ghost before = p@.subrange(0, i as int);
            let ghost after = p@.subrange(0, i + 1);
            assert(after.drop_last() =~= before);
            assert(after.last() == p@[i as int]);
            let len = p[i].events.len();
            if exact {
                if sum <= usize::MAX - len {
                    sum = sum + len;
                } else {
                    sum = usize::MAX;
                    exact = false;
                }
            }
            i = i + 1;
        }
        assert(p@.subrange(0, p@.len() as int) =~= p@);
        sum
    }

    /// Whether along every participant's history the contest positions
    /// strictly increase.
    pub fn histories_ordered(&self) -> (r: bool)
        ensures
            r == forall|a: int|
                0 <= a < self.players_events@.len() ==> #[trigger] history_increasing(
                    self.players_events@[a].events@,
                ),
    {
        let mut i: usize = 0;
        while i < self.players_events.len()
            invariant
                i <= self.players_events@.len(),
                forall|a: int| 0 <= a < i ==> #[trigger] history_increasing(self.players_events@[a].events@),
            decreases self.players_events@.len() - i,
        {
            if !crate::event::is_history_increasing(&self.players_events[i].events) {
                assert(!history_increasing(self.players_events@[i as int].events@));
                return false;
            }
            i = i + 1;
        }
        true
    }

    /// Whether some history records standing `s` at position `idx`.
    fn find_place(&self, s: &Standing, idx: usize) -> (r: bool)
        ensures
            r == place_recorded(self.players_events@, *s, idx),
    {
        let n = self.players_events.len();
        let mut a: usize = 0;
        while a < n
            invariant
                n == self.players_events@.len(),
                a <= n,
                forall|b: int, k: int|
                    0 <= b < a && 0 <= k < self.players_events@[b].events@.len()
                        ==> !#[trigger] event_records(self.players_events@[b], k, *s, idx),
            decreases n - a,
        {
            let h = &self.players_events[a];
            if h.name == s.0 {
                let m = h.events.len();
                let mut k: usize = 0;
                while k < m
                    invariant
                        a < n,
                        n == self.players_events@.len(),
                        h == self.players_events@[a as int],
                        h.name@ == s.0@,
                        m == h.events@.len(),
                        k <= m,
                        forall|j: int| 0 <= j < k ==> !#[trigger] event_records(*h, j, *s, idx),
                    decreases m - k,
                {
                    let e = h.events[k];
                    if e.contest_index == idx && e.place == s.1 {
                        assert(event_records(self.players_events@[a as int], k as int, *s, idx));
                        return true;
                    }
                    k = k + 1;
                }
            }
            a = a + 1;
        }
        false
    }

    /// Whether, for every line of the contest's standings, some history
    /// holds an event of the contest at position `idx` that gives that
    /// participant the lowest rank of its tie group as its place.
    pub fn places_recorded(&self, contest: &Contest, idx: usize) -> (r: bool)
        ensures
            r == forall|i: int|
                0 <= i < contest.standings@.len() ==> #[trigger] place_recorded(
                    self.players_events@,
                    contest.standings@[i],
                    idx,
                ),
    {
        let n = contest.standings.len();
        let mut i: usize = 0;
        while i < n
            invariant
                n == contest.standings@.len(),
                i <= n,
                forall|j: int|
                    0 <= j < i ==> #[trigger] place_recorded(
                        self.players_events@,
                        contest.standings@[j],
                        idx,
                    ),
            decreases n - i,
        {
            if !self.find_place(&contest.standings[i], idx) {
                return false;
            }
            i = i + 1;
        }
        true
    }
}

} // verus!
