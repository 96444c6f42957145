//! Identifiers of users and channels. Each is a UUID, held as the 128-bit
//! number that it is.

use vstd::prelude::*;

verus! {

/// How the `uuid` crate writes the UUID with this number: lower-case
/// hexadecimal digits in five groups with hyphens between them.
pub uninterp spec fn uuid_hyphenated(id: u128) -> Seq<char>;

/// Writes an identifier in the hyphenated form. Calls
/// `uuid::Uuid::from_u128` and then `to_string` on the UUID it gives.
/// `from_u128` takes the number's bytes from the most significant down;
/// `Display` for `Uuid` writes the hyphenated lower-case form. The contract
/// names the text that comes back, which the number alone decides.
#[verifier::external_body]
pub(crate) fn hyphenated(id: u128) -> (text: String)
    ensures
        text@ == uuid_hyphenated(id),
{
    uuid::Uuid::from_u128(id).to_string()
}

} // verus!
