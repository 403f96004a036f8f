use vstd::prelude::*;
use crate::contest::{standings_valid, Contest};
use crate::dataset::ContestList;
use crate::error::RatingError;
use crate::system::{known_system_name, resolve_system};

verus! {

/// Whether every contest's standings are well formed.
pub open spec fn all_well_formed(s: Seq<Contest>) -> bool {
    forall|i: int| 0 <= i < s.len() ==> #[trigger] standings_valid(s[i].standings@)
}

/// The checks made before any rating update: the rating-system identifier is
/// resolved first, before any contest is looked at; then each contest's
/// standings are checked in dataset order, and the first malformed one aborts
/// the whole run. On success the contests become the run's dataset, unchanged.
pub fn prepare_run(system: &str, contests: Vec<Contest>) -> (r: Result<ContestList, RatingError>)
    ensures
        !known_system_name(system@) ==> r matches Err(RatingError::Configuration),
        known_system_name(system@) && all_well_formed(contests@) ==> (r matches Ok(d) && d.0@
            == contests@),
        known_system_name(system@) && !all_well_formed(contests@) ==> (r matches Err(
            RatingError::MalformedInput { contest_index },
        ) && contest_index < contests@.len() && !standings_valid(
            contests@[contest_index as int].standings@,
        ) && (forall|j: int|
            0 <= j < contest_index ==> #[trigger] standings_valid(contests@[j].standings@))),
{
    if let Err(e) = resolve_system(system) {
        return Err(e);
    }
    let mut i: usize = 0;
    while i < contests.len()
        invariant
            i <= contests@.len(),
            known_system_name(system@),
            forall|j: int| 0 <= j < i ==> #[trigger] standings_valid(contests@[j].standings@),
        decreases contests@.len() - i,
    {
        if !contests[i].is_well_formed() {
            return Err(RatingError::MalformedInput { contest_index: i });
        }
        i = i + 1;
    }
    Ok(ContestList::new(contests))
}

} // verus!
