//! Routers: one per push relay, behind one contract and one vocabulary of
//! failures.

pub mod common;
pub mod location;
pub mod router_data;
pub mod wns;

use crate::cause::{cause_chain, Cause};
use crate::error::ApiError;
use crate::extractors::notification::Notification;
use crate::extractors::router_data_input::RouterDataInput;
use crate::routers::common::Effect;
use crate::routers::router_data::RouterData;
use crate::routers::wns::error::{wns_errno, wns_message, wns_sources, wns_status, WnsError};
use crate::status::StatusCode;
use crate::text::join_text;
use vstd::prelude::*;

verus! {

/// What a router reports when it could not deliver.
#[derive(Clone, Debug, PartialEq, Eq)]
pub enum RouterError {
    /// A failure of the notification-hub backend.
    Wns(WnsError),
    /// The relay says that the registration does not exist or is gone.
    NotFound,
    /// The relay refused the router's credentials.
    Authentication,
    /// The relay did not answer in time.
    RequestTimeout,
    /// The relay could not be reached.
    Connect(Cause),
    /// The relay answered with a failure of its own.
    Upstream { status: String, message: String },
}

impl From<WnsError> for RouterError {
    fn from(error: WnsError) -> (wrapped: RouterError) {
        RouterError::Wns(error)
    }
}

impl vstd::std_specs::convert::FromSpecImpl<WnsError> for RouterError {
    open spec fn obeys_from_spec() -> bool {
        true
    }

    open spec fn from_spec(error: WnsError) -> RouterError {
        RouterError::Wns(error)
    }
}

/// How a router failure reads.
pub open spec fn router_message(e: RouterError) -> Seq<char> {
    match e {
        RouterError::Wns(inner) => wns_message(inner),
        RouterError::NotFound => "Bridge reports user was not found"@,
        RouterError::Authentication => "Bridge authentication error"@,
        RouterError::RequestTimeout => "Bridge request timeout"@,
        RouterError::Connect(_) => "Error while connecting to bridge service"@,
        RouterError::Upstream { status, message } => "Bridge error, "@ + status@ + ": "@
            + message@,
    }
}

/// The number of the HTTP status of a router failure.
pub open spec fn router_status(e: RouterError) -> u16 {
    match e {
        RouterError::Wns(inner) => wns_status(inner),
        RouterError::NotFound => 410,
        _ => 502,
    }
}

/// The published error number of a router failure, if it has one.
pub open spec fn router_errno(e: RouterError) -> Option<usize> {
    match e {
        RouterError::Wns(inner) => wns_errno(inner),
        RouterError::NotFound => Some(106usize),
        RouterError::Authentication => Some(901usize),
        RouterError::Connect(_) => Some(902usize),
        RouterError::RequestTimeout => Some(903usize),
        RouterError::Upstream { .. } => None,
    }
}

/// The messages of the failures beneath a router failure, nearest first.
pub open spec fn router_sources(e: RouterError) -> Seq<Seq<char>> {
    match e {
        RouterError::Wns(inner) => wns_sources(inner),
        RouterError::Connect(cause) => cause_chain(cause),
        _ => Seq::empty(),
    }
}

impl RouterError {
    /// The HTTP status to answer with.
    pub fn status(&self) -> (status: StatusCode)
        ensures
            status.number() == router_status(*self),
    {
        match self {
            RouterError::Wns(inner) => inner.status(),
            RouterError::NotFound => StatusCode::gone(),
            RouterError::Authentication
            | RouterError::RequestTimeout
            | RouterError::Connect(_)
            | RouterError::Upstream { .. } => StatusCode::bad_gateway(),
        }
    }

    /// The published error number, if there is one.
    pub fn errno(&self) -> (errno: Option<usize>)
        ensures
            errno == router_errno(*self),
    {
        match self {
            RouterError::Wns(inner) => inner.errno(),
            RouterError::NotFound => Some(106),
            RouterError::Authentication => Some(901),
            RouterError::Connect(_) => Some(902),
            RouterError::RequestTimeout => Some(903),
            RouterError::Upstream { .. } => None,
        }
    }

    /// How the failure reads.
    pub fn message(&self) -> (message: String)
        ensures
            message@ == router_message(*self),
    {
        match self {
            RouterError::Wns(inner) => inner.message(),
            RouterError::NotFound => String::from_str("Bridge reports user was not found"),
            RouterError::Authentication => String::from_str("Bridge authentication error"),
            RouterError::RequestTimeout => String::from_str("Bridge request timeout"),
            RouterError::Connect(_) => String::from_str(
                "Error while connecting to bridge service",
            ),
            RouterError::Upstream { status, message } => {
                let mut text = join_text("Bridge error, ", status.as_str());
                text.append(": ");
                text.append(message.as_str());
                text
            },
        }
    }

    /// The messages of the failures beneath this one, nearest first.
    pub fn sources(&self) -> (messages: Vec<String>)
        ensures
            messages.deep_view() == router_sources(*self),
    {
        match self {
            RouterError::Wns(inner) => inner.sources(),
            RouterError::Connect(cause) => cause.chain(),
            _ => {
                let messages: Vec<String> = Vec::new();
                assert(messages.deep_view() =~= router_sources(*self));
                messages
            },
        }
    }
}

/// What a router answers after a successful send.
#[derive(Clone, Debug, PartialEq, Eq)]
pub struct RouterResponse {
    /// Where the caller finds the message.
    pub location: String,
    /// The TTL to report back to the caller, in seconds.
    pub ttl: i64,
}

impl RouterResponse {
    /// The response to a message that the relay took.
    pub fn success(location: String, ttl: i64) -> (response: RouterResponse)
        ensures
            response.location == location,
            response.ttl == ttl,
    {
        RouterResponse { location, ttl }
    }
}

/// What to hand to a client for one notification.
#[derive(Debug)]
pub struct Dispatch<'a, C> {
    /// The client of the application.
    pub client: &'a C,
    /// The application that the device is registered for.
    pub app_id: String,
    /// The registration token of the device.
    pub routing_token: String,
    /// The TTL to send, in seconds.
    pub ttl: u64,
    /// The body of the outbound message.
    pub message_data: Vec<(String, String)>,
}

/// What the router answers for one notification, and what the caller does
/// beside answering.
#[derive(Debug)]
pub struct Routed {
    /// The answer.
    pub result: Result<RouterResponse, ApiError>,
    /// What the caller does, in order. None of it changes the answer.
    pub effects: Vec<Effect>,
}

/// What every backend offers, whatever relay it speaks to.
pub trait Router {
    /// The handle through which the backend sends for one application.
    type Client;

    /// The clients that the backend holds, by application identifier.
    spec fn clients(&self) -> Map<Seq<char>, Self::Client>;

    /// Makes the routing data to store for a device that registers for an
    /// application. Succeeds where the backend has a client for the
    /// application, and only there.
    fn register(&self, router_data_input: &RouterDataInput, app_id: &str) -> (data: Result<
        RouterData,
        RouterError,
    >)
        ensures
            data is Ok <==> self.clients().contains_key(app_id@),
    ;

    /// Decides how to send a notification. Where it succeeds, the client is
    /// the one that the backend holds for the application.
    fn route_notification(&self, notification: &Notification) -> (dispatch: Result<
        Dispatch<'_, Self::Client>,
        ApiError,
    >)
        ensures
            dispatch matches Ok(d) ==> self.clients().contains_key(d.app_id@) && *d.client
                == self.clients()[d.app_id@],
    ;
}

} // verus!
