//! Routing tables of the finance gRPC services.

use vstd::prelude::*;

pub mod controlling;
pub mod financial;
pub mod treasury;

verus! {

/// `<str as PartialEq>::eq`: two texts are equal exactly when they hold the
/// same characters.
#[verifier::external_body]
pub(crate) fn str_eq(a: &str, b: &str) -> (r: bool)
    ensures
        r == (a@ == b@),
{
    a == b
}

} // verus!
