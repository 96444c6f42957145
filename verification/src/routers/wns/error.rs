//! What can go wrong inside the notification-hub backend.

use crate::cause::{cause_chain, Cause};
use crate::status::StatusCode;
use crate::text::join_text;
use vstd::prelude::*;

verus! {

/// Failures of the notification-hub backend itself.
#[derive(Clone, Debug, PartialEq, Eq)]
pub enum WnsError {
    /// The configured credentials could not be decoded.
    CredentialDecode(Cause),
    /// A client could not be built and authenticated for a credential.
    OAuthClientBuild(Cause),
    /// The stored routing data holds no registration token.
    NoRegistrationToken,
    /// The stored routing data holds no application identifier.
    NoAppId,
    /// No client is configured for the application identifier.
    InvalidAppId(String),
}

/// How a backend failure reads.
pub open spec fn wns_message(e: WnsError) -> Seq<char> {
    match e {
        WnsError::CredentialDecode(_) => "Failed to decode the credential settings"@,
        WnsError::OAuthClientBuild(_) => "Error while building the OAuth client"@,
        WnsError::NoRegistrationToken => "No registration token found for user"@,
        WnsError::NoAppId => "No app ID found for user"@,
        WnsError::InvalidAppId(app_id) => "User has invalid app ID "@ + app_id@,
    }
}

/// Whether the failure says that the stored registration can no longer be
/// used: a key is missing from it, or it names an application that has no
/// client.
pub open spec fn wns_registration_lost(e: WnsError) -> bool {
    e is NoRegistrationToken || e is NoAppId || e is InvalidAppId
}

/// The number of the HTTP status of a backend failure.
pub open spec fn wns_status(e: WnsError) -> u16 {
    if wns_registration_lost(e) {
        410
    } else {
        500
    }
}

/// The published error number of a backend failure, if it has one.
pub open spec fn wns_errno(e: WnsError) -> Option<usize> {
    if wns_registration_lost(e) {
        Some(106usize)
    } else {
        None
    }
}

/// The messages of the failures beneath a backend failure, nearest first.
pub open spec fn wns_sources(e: WnsError) -> Seq<Seq<char>> {
    match e {
        WnsError::CredentialDecode(cause) => cause_chain(cause),
        WnsError::OAuthClientBuild(cause) => cause_chain(cause),
        _ => Seq::empty(),
    }
}

impl WnsError {
    /// The HTTP status to answer with.
    pub fn status(&self) -> (status: StatusCode)
        ensures
            status.number() == wns_status(*self),
    {
        match self {
            WnsError::NoRegistrationToken | WnsError::NoAppId | WnsError::InvalidAppId(_) => {
                StatusCode::gone()
            },
            WnsError::CredentialDecode(_) | WnsError::OAuthClientBuild(_) => {
                StatusCode::internal_server_error()
            },
        }
    }

    /// The published error number, if there is one.
    pub fn errno(&self) -> (errno: Option<usize>)
        ensures
            errno == wns_errno(*self),
    {
        match self {
            WnsError::NoRegistrationToken | WnsError::NoAppId | WnsError::InvalidAppId(_) => Some(
                106,
            ),
            WnsError::CredentialDecode(_) | WnsError::OAuthClientBuild(_) => None,
        }
    }

    /// How the failure reads.
    pub fn message(&self) -> (message: String)
        ensures
            message@ == wns_message(*self),
    {
        match self {
            WnsError::CredentialDecode(_) => String::from_str(
                "Failed to decode the credential settings",
            ),
            WnsError::OAuthClientBuild(_) => String::from_str(
                "Error while building the OAuth client",
            ),
            WnsError::NoRegistrationToken => String::from_str(
                "No registration token found for user",
            ),
            WnsError::NoAppId => String::from_str("No app ID found for user"),
            WnsError::InvalidAppId(app_id) => join_text("User has invalid app ID ", app_id.as_str()),
        }
    }

    /// The messages of the failures beneath this one, nearest first.
    pub fn sources(&self) -> (messages: Vec<String>)
        ensures
            messages.deep_view() == wns_sources(*self),
    {
        match self {
            WnsError::CredentialDecode(cause) => cause.chain(),
            WnsError::OAuthClientBuild(cause) => cause.chain(),
            _ => {
                let messages: Vec<String> = Vec::new();
                assert(messages.deep_view() =~= wns_sources(*self));
                messages
            },
        }
    }
}

} // verus!
