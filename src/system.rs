use vstd::prelude::*;
use crate::error::RatingError;

verus! {

/// The identifiers under which the rating-system library offers a system:
/// BAR, Glicko, Codeforces, Topcoder, TrueSkill, and Elo-MMR in its Gaussian
/// and logistic forms, each also in a fast variant.
pub open spec fn known_system_name(name: Seq<char>) -> bool {
    ||| name == "bar"@
    ||| name == "glicko"@
    ||| name == "cf"@
    ||| name == "tc"@
    ||| name == "ts"@
    ||| name == "mmx"@
    ||| name == "mmx-fast"@
    ||| name == "mmr"@
    ||| name == "mmr-fast"@
}

/// Relies on multi_skill::systems::get_rating_system_by_name: it returns `Ok`
/// for exactly the identifiers that its `match` lists, and `Err` for any
/// other string.
#[verifier::external_body]
fn system_is_offered(name: &str) -> (r: bool)
    ensures
        r == known_system_name(name@),
{
    multi_skill::systems::get_rating_system_by_name(name).is_ok()
}

/// Resolves a rating-system identifier once, at the start of a run: an
/// unknown one is a configuration error, never a silent fallback.
pub fn resolve_system(name: &str) -> (r: Result<(), RatingError>)
    ensures
        r is Ok <==> known_system_name(name@),
        r is Err ==> r == Err::<(), RatingError>(RatingError::Configuration),
{
    if system_is_offered(name) {
        Ok(())
    } else {
        Err(RatingError::Configuration)
    }
}

} // verus!
