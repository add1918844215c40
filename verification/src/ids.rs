//! Fresh identifiers for jobs.

use vstd::prelude::*;

verus! {

/// The alphabet of an identifier: Crockford's base 32.
pub open spec fn id_alphabet() -> Seq<char> {
    "0123456789ABCDEFGHJKMNPQRSTVWXYZ"@
}

/// The shape of an identifier: 26 characters of the alphabet.
pub open spec fn is_job_id(id: Seq<char>) -> bool {
    &&& id.len() == 26
    &&& forall|i: int| 0 <= i < id.len() ==> id_alphabet().contains(#[trigger] id[i])
}

/// A fresh identifier, from `ulid::Ulid::new` and `ulid::Ulid::to_string`.
/// Trusted: the text has 26 characters, each of Crockford's base 32. Which
/// identifier comes back depends on the clock and on chance, so nothing more
/// is claimed; that two calls give two identifiers is likely and not promised.
/// `Ulid::new` draws from the random number generator of the thread, which
/// panics where the host gives it no entropy; no argument of this function
/// can rule that out.
#[verifier::external_body]
pub(crate) fn fresh_id() -> (id: String)
    ensures
        is_job_id(id@),
{
    ulid::Ulid::new().to_string()
}

} // verus!
