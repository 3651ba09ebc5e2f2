//! Identifiers by which the host tells its widgets apart.

use vstd::prelude::*;

verus! {

/// Whether `c` is a digit of lower-case hexadecimal notation.
pub open spec fn is_lower_hex(c: char) -> bool {
    ('0' <= c && c <= '9') || ('a' <= c && c <= 'f')
}

/// Whether `id` has the form of a freshly drawn identifier: 32 lower-case
/// hexadecimal digits, the thirteenth of them a 4.
pub open spec fn is_fresh_id(id: Seq<char>) -> bool {
    &&& id.len() == 32
    &&& forall|i: int| 0 <= i < 32 ==> is_lower_hex(#[trigger] id[i])
    &&& id[12] == '4'
}

/// Draws a new identifier: `uuid::Uuid::new_v4`, written out by
/// `Uuid::simple` and `to_string`.
///
/// Trusted, not proved: the outcome is random, and all that is claimed of it
/// is its form. A version 4 identifier in simple notation is 32 lower-case
/// hexadecimal digits without hyphens, and the digit that holds the version
/// is 4. The call panics where the system cannot supply random bytes.
#[verifier::external_body]
pub(crate) fn fresh_id() -> (id: String)
    ensures
        is_fresh_id(id@),
{
    uuid::Uuid::new_v4().simple().to_string()
}

} // verus!
