use vstd::prelude::*;

verus! {

/// The event record of the rating-system library, read here field by field.
#[verifier::external_type_specification]
pub struct ExPlayerEvent(multi_skill::systems::PlayerEvent);

/// What one contest did to one participant: the contest's dataset position,
/// the rounded mean and spread of the rating after it, the rounded
/// performance score, and the participant's place (lowest rank of its tie
/// group).
#[derive(Clone, Copy, Debug, PartialEq, Eq, Structural)]
pub struct RatingEvent {
    pub contest_index: usize,
    pub rating_mu: i32,
    pub rating_sig: i32,
    pub perf_score: i32,
    pub place: usize,
}

/// Contest positions strictly increase along the history.
pub open spec fn history_increasing(events: Seq<RatingEvent>) -> bool {
    forall|k: int|
        0 <= k < events.len() - 1 ==> #[trigger] events[k].contest_index < events[k
            + 1].contest_index
}

impl RatingEvent {
    /// The same record, taken from the rating-system library's type.
    pub fn from_event(e: multi_skill::systems::PlayerEvent) -> (r: RatingEvent)
        ensures
            r.contest_index == e.contest_index,
            r.rating_mu == e.rating_mu,
            r.rating_sig == e.rating_sig,
            r.perf_score == e.perf_score,
            r.place == e.place,
    {
        RatingEvent {
            contest_index: e.contest_index,
            rating_mu: e.rating_mu,
            rating_sig: e.rating_sig,
            perf_score: e.perf_score,
            place: e.place,
        }
    }
}

/// Whether contest positions strictly increase along the history.
pub fn is_history_increasing(events: &Vec<RatingEvent>) -> (r: bool)
    ensures
        r == history_increasing(events@),
{
    let n = events.len();
    let mut k: usize = 1;
    while k < n
        invariant
            n == events@.len(),
            1 <= k,
            forall|j: int|
                0 <= j < k - 1 && j < n - 1 ==> #[trigger] events@[j].contest_index < events@[j
                    + 1].contest_index,
        decreases n - k,
    {
        if events[k - 1].contest_index >= events[k].contest_index {
            return false;
        }
        k = k + 1;
    }
    true
}

} // verus!
