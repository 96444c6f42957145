//! HTTP status codes, as far as the error model needs them.

use crate::text::text_of;
use vstd::prelude::*;

verus! {

/// The reason phrase that the `http` crate publishes for a status code, if it
/// has one for it.
pub uninterp spec fn canonical_reason(code: u16) -> Option<Seq<char>>;

/// Calls `http::StatusCode::canonical_reason`, through the re-export
/// `actix_web::http`, on the status that `StatusCode::from_u16` makes of
/// `code`. The contract names the phrase that comes back; the crate keeps
/// it in a fixed table from code to phrase. `from_u16` takes every number
/// from 100 to 999, so it cannot fail here.
#[verifier::external_body]
fn reason_phrase(code: u16) -> (phrase: Option<String>)
    requires
        100 <= code < 1000,
    ensures
        text_of(phrase) == canonical_reason(code),
{
    let status = actix_web::http::StatusCode::from_u16(code).ok()?;
    status.canonical_reason().map(String::from)
}

/// An HTTP status code: a number from 100 to 999.
#[derive(Clone, Copy, Debug, PartialEq, Eq, Structural)]
pub struct StatusCode {
    code: u16,
}

impl StatusCode {
    #[verifier::type_invariant]
    spec fn in_range(self) -> bool {
        100 <= self.code < 1000
    }

    /// The number of this status.
    pub closed spec fn number(&self) -> u16 {
        self.code
    }

    /// Makes a status of a number from 100 to 999, and of no other.
    pub fn from_u16(src: u16) -> (status: Option<StatusCode>)
        ensures
            status is Some <==> 100 <= src < 1000,
            status matches Some(s) ==> s.number() == src,
    {
        if src < 100 || src >= 1000 {
            None
        } else {
            Some(StatusCode { code: src })
        }
    }

    /// The number of this status.
    #[verifier::when_used_as_spec(number)]
    pub fn as_u16(&self) -> (code: u16)
        ensures
            code == self.number(),
            100 <= code < 1000,
    {
        proof {
            use_type_invariant(self);
        }
        self.code
    }

    /// The standard reason phrase of this status, where there is one.
    pub fn canonical_reason(&self) -> (phrase: Option<String>)
        ensures
            text_of(phrase) == canonical_reason(self.number()),
    {
        proof {
            use_type_invariant(self);
        }
        reason_phrase(self.code)
    }

    /// 201 Created.
    pub fn created() -> (status: StatusCode)
        ensures
            status.number() == 201,
    {
        StatusCode { code: 201 }
    }

    /// 400 Bad Request.
    pub fn bad_request() -> (status: StatusCode)
        ensures
            status.number() == 400,
    {
        StatusCode { code: 400 }
    }

    /// 401 Unauthorized.
    pub fn unauthorized() -> (status: StatusCode)
        ensures
            status.number() == 401,
    {
        StatusCode { code: 401 }
    }

    /// 404 Not Found.
    pub fn not_found() -> (status: StatusCode)
        ensures
            status.number() == 404,
    {
        StatusCode { code: 404 }
    }

    /// 410 Gone.
    pub fn gone() -> (status: StatusCode)
        ensures
            status.number() == 410,
    {
        StatusCode { code: 410 }
    }

    /// 413 Payload Too Large.
    pub fn payload_too_large() -> (status: StatusCode)
        ensures
            status.number() == 413,
    {
        StatusCode { code: 413 }
    }

    /// 500 Internal Server Error.
    pub fn internal_server_error() -> (status: StatusCode)
        ensures
            status.number() == 500,
    {
        StatusCode { code: 500 }
    }

    /// 502 Bad Gateway.
    pub fn bad_gateway() -> (status: StatusCode)
        ensures
            status.number() == 502,
    {
        StatusCode { code: 502 }
    }
}

} // verus!
