//! Where a caller finds a message that a relay took.

use crate::text::{join_text, text_of};
use vstd::prelude::*;

verus! {

/// The URL, as text, that the `url` crate gives for `input` read against the
/// URL that `base` writes; nothing where `base` is no absolute URL or
/// `input` cannot be read against it.
pub uninterp spec fn url_joined(base: Seq<char>, input: Seq<char>) -> Option<Seq<char>>;

/// Calls `url::Url::join` on the URL that `url::Url::parse` reads from
/// `base`, and hands back the serialization of the URL it gives. Both parse
/// by fixed rules, so the two texts decide the result, which the contract
/// names. A text that either refuses gives nothing.
#[verifier::external_body]
fn url_join(base: &str, input: &str) -> (joined: Option<String>)
    ensures
        text_of(joined) == url_joined(base@, input@),
{
    let base = url::Url::parse(base).ok()?;
    base.join(input).ok().map(String::from)
}

/// The path of a message below the endpoint.
pub open spec fn message_path(message_id: Seq<char>) -> Seq<char> {
    "/m/"@ + message_id
}

/// The location of a message: its path, read against the endpoint. There is
/// none where the two do not make a URL.
pub fn message_location(endpoint: &str, message_id: &str) -> (location: Option<String>)
    ensures
        text_of(location) == url_joined(endpoint@, message_path(message_id@)),
{
    let path = join_text("/m/", message_id);
    url_join(endpoint, path.as_str())
}

} // verus!
