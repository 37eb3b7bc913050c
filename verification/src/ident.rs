//! Unguessable identifiers, drawn by the `uuid` crate.

use uuid::Uuid;
use vstd::prelude::*;

verus! {

/// The number of characters in the hyphenated text of an identifier.
pub const IDENTIFIER_LEN: usize = 36;

/// `uuid::Uuid::new_v4`, written out with `to_string`: a random 128-bit
/// identifier (122 bits of them random) in its hyphenated form. Nothing is
/// claimed of the text but its length.
#[verifier::external_body]
pub(crate) fn random_identifier() -> (r: String)
    ensures
        r@.len() == IDENTIFIER_LEN,
{
    Uuid::new_v4().to_string()
}

} // verus!
