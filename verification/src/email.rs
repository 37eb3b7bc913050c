//! Syntax of e-mail addresses, judged by the `email_address` crate.

use email_address::EmailAddress;
use vstd::prelude::*;

verus! {

/// Whether `email_address` accepts `address` as an address.
pub uninterp spec fn email_syntax_valid(address: Seq<char>) -> bool;

/// `email_address::EmailAddress::is_valid`. The contract names the answer.
#[verifier::external_body]
pub(crate) fn email_is_valid(address: &str) -> (r: bool)
    ensures
        r == email_syntax_valid(address@),
{
    EmailAddress::is_valid(address)
}

} // verus!
