//! The router of the notification-hub backend.
//!
//! The router holds one authenticated client for each configured
//! application. It does not send: it decides what to send through which
//! client, and, once the caller has sent, what to answer and what else to
//! do.

use crate::cause::Cause;
use crate::error::{api_errno, api_status, ApiError, ApiErrorKind};
use crate::extractors::notification::Notification;
use crate::extractors::router_data_input::RouterDataInput;
use crate::routers::common::{
    build_message_data,
    counts,
    handle_error,
    incr_success_metrics,
    message_data,
    payload_len,
    Effect,
    DATA_METRIC,
    ERROR_METRIC,
    SENT_METRIC,
};
use crate::routers::location::{message_location, message_path, url_joined};
use crate::routers::router_data::{text_at, RouterData, RouterValue, RouterValueView};
use crate::routers::wns::error::WnsError;
use crate::routers::wns::settings::WnsSettings;
use crate::routers::{Dispatch, Routed, Router, RouterError, RouterResponse};
use crate::text::text_of;
use crate::ttl::{clamp_ttl, effective_ttl, MAX_TTL};
use vstd::hash_map::StringHashMap;
use vstd::prelude::*;

verus! {

/// The name of this backend in metrics.
pub const PLATFORM: &'static str = "wnsv1";

/// The failure that stopped the building of the clients: the first one in
/// the order of building, if any.
pub open spec fn first_failure<C>(built: Seq<(String, Result<C, Cause>)>) -> Option<Cause>
    decreases built.len(),
{
    if built.len() == 0 {
        None
    } else {
        match first_failure(built.drop_last()) {
            Some(cause) => Some(cause),
            None => match built.last().1 {
                Err(cause) => Some(cause),
                Ok(_) => None,
            },
        }
    }
}

/// The pool that a run of building leaves: each application with the client
/// that was built for it last.
pub open spec fn pool_of<C>(built: Seq<(String, Result<C, Cause>)>) -> Map<Seq<char>, C>
    decreases built.len(),
{
    if built.len() == 0 {
        Map::empty()
    } else {
        match built.last().1 {
            Ok(client) => pool_of(built.drop_last()).insert(built.last().0@, client),
            Err(_) => pool_of(built.drop_last()),
        }
    }
}

/// What the routing data must hold for a send, and what comes of it: the
/// registration token and the application identifier, or the failure that
/// names the first of the two that is missing.
pub open spec fn routing_of(data: Map<Seq<char>, RouterValueView>) -> Result<
    (Seq<char>, Seq<char>),
    WnsError,
> {
    match text_at(data, "token"@) {
        None => Err(WnsError::NoRegistrationToken),
        Some(token) => match text_at(data, "app_id"@) {
            None => Err(WnsError::NoAppId),
            Some(app_id) => Ok((token, app_id)),
        },
    }
}

/// Whether `routed` is what follows a send that the relay took: the answer
/// gives the location and the TTL that the notification asked for, and the
/// message and the bytes of its payload are counted.
pub open spec fn follows_success(
    routed: Routed,
    notification: Notification,
    app_id: Seq<char>,
    location: Seq<char>,
) -> bool {
    &&& routed.result matches Ok(response) && response.location@ == location && response.ttl
        == notification.headers.ttl
    &&& routed.effects@.len() == 2
    &&& counts(routed.effects@[0], SENT_METRIC@, 1, PLATFORM@, app_id, None)
    &&& counts(
        routed.effects@[1],
        DATA_METRIC@,
        payload_len(notification),
        PLATFORM@,
        app_id,
        None,
    )
}

/// Whether `routed` is what follows a send that failed with `error`: the
/// answer is that error, wrapped as it is; the failure is counted; and the
/// user is removed exactly where the relay no longer knows the registration.
pub open spec fn follows_failure(
    routed: Routed,
    notification: Notification,
    app_id: Seq<char>,
    error: RouterError,
) -> bool {
    &&& routed.result matches Err(e) && e.kind == ApiErrorKind::Router(error)
    &&& routed.effects@.len() == if error is NotFound {
        2int
    } else {
        1int
    }
    &&& counts(
        routed.effects@[0],
        ERROR_METRIC@,
        1,
        PLATFORM@,
        app_id,
        text_of(notification.subscription.vapid),
    )
    &&& error is NotFound ==> routed.effects@[1] == Effect::RemoveUser(
        notification.subscription.user.uaid,
    )
}

/// Router of the notification-hub backend, over clients of type `C`.
#[verifier::reject_recursive_types(C)]
pub struct WnsRouter<C> {
    settings: WnsSettings,
    endpoint_url: String,
    /// A map from application ID to an authenticated client.
    clients: StringHashMap<C>,
}

impl<C> WnsRouter<C> {
    /// The clients that the router holds, by application identifier.
    pub closed spec fn pool(&self) -> Map<Seq<char>, C> {
        self.clients@
    }

    /// The shortest TTL that the router sends.
    pub closed spec fn min_ttl(&self) -> u64 {
        self.settings.min_ttl
    }

    /// The endpoint under which messages are found.
    pub closed spec fn endpoint(&self) -> Seq<char> {
        self.endpoint_url@
    }

    /// Collects the clients that were built, one application after the
    /// other. One failure fails the whole: the first failure comes back, and
    /// no pool.
    pub fn create_clients(built: Vec<(String, Result<C, Cause>)>) -> (clients: Result<
        StringHashMap<C>,
        Cause,
    >)
        ensures
            match clients {
                Ok(pool) => first_failure(built@) is None && pool@ == pool_of(built@),
                Err(cause) => first_failure(built@) == Some(cause),
            },
    {
        let mut clients: StringHashMap<C> = StringHashMap::new();
        let ghost all = built@;
        assert(all.take(0) =~= Seq::<(String, Result<C, Cause>)>::empty());
        for entry in it: built.into_iter()
            invariant
                it.seq() == all,
                first_failure(all.take(it.index() as int)) is None,
                clients@ == pool_of(all.take(it.index() as int)),
        {
            let ghost done = all.take(it.index() as int);
            let ghost next = all.take(it.index() + 1);
            assert(next.drop_last() =~= done);
            assert(next.last() == entry);
            let (profile, outcome) = entry;
            match outcome {
                Ok(client) => {
                    clients.insert(profile, client);
                },
                Err(cause) => {
                    proof {
                        lemma_first_failure_stays(all, it.index() + 1);
                    }
                    return Err(cause);
                },
            }
        }
        assert(all.take(all.len() as int) =~= all);
        Ok(clients)
    }

    /// Create a new router from the settings, the endpoint under which
    /// messages are found, and the clients as they were built.
    pub fn new(
        settings: WnsSettings,
        endpoint_url: String,
        built: Vec<(String, Result<C, Cause>)>,
    ) -> (router: Result<Self, WnsError>)
        ensures
            match router {
                Ok(r) => first_failure(built@) is None && r.pool() == pool_of(built@)
                    && r.min_ttl() == settings.min_ttl && r.endpoint() == endpoint_url@,
                Err(e) => first_failure(built@) matches Some(cause) && e
                    == WnsError::OAuthClientBuild(cause),
            },
    {
        match Self::create_clients(built) {
            Ok(clients) => Ok(WnsRouter { settings, endpoint_url, clients }),
            Err(cause) => Err(WnsError::OAuthClientBuild(cause)),
        }
    }

    /// If we have any clients defined, this connection is "active".
    pub fn active(&self) -> (active: bool)
        ensures
            active == !self.pool().is_empty(),
    {
        !self.clients.is_empty()
    }

    /// Do the gauntlet check to get the routing credentials: the
    /// subscription specific user routing token and the application ID,
    /// stored as `token` and `app_id`. If either is missing, it's probably
    /// because of a corrupted key.
    pub fn routing_info(&self, router_data: &RouterData) -> (info: Result<
        (String, String),
        ApiError,
    >)
        ensures
            match info {
                Ok((token, app_id)) => routing_of(router_data@) == Ok::<
                    (Seq<char>, Seq<char>),
                    WnsError,
                >((token@, app_id@)),
                Err(e) => routing_of(router_data@) matches Err(failure) && e.kind
                    == ApiErrorKind::Router(RouterError::Wns(failure)),
            },
    {
        let routing_token = match router_data.get_str("token") {
            Some(v) => String::from_str(v),
            None => {
                return Err(
                    ApiError::from(
                        ApiErrorKind::Router(RouterError::Wns(WnsError::NoRegistrationToken)),
                    ),
                );
            },
        };
        let app_id = match router_data.get_str("app_id") {
            Some(v) => String::from_str(v),
            None => {
                return Err(
                    ApiError::from(ApiErrorKind::Router(RouterError::Wns(WnsError::NoAppId))),
                );
            },
        };
        Ok((routing_token, app_id))
    }

    /// What follows a send that the relay took, given the location of the
    /// message.
    pub fn route_success(notification: &Notification, app_id: &str, location: String) -> (routed:
        Routed)
        ensures
            follows_success(routed, *notification, app_id@, location@),
    {
        let effects = incr_success_metrics(PLATFORM, app_id, notification);
        Routed { result: Ok(RouterResponse::success(location, notification.headers.ttl)), effects }
    }

    /// What follows a send that failed.
    pub fn route_failure(notification: &Notification, app_id: &str, error: RouterError) -> (routed:
        Routed)
        ensures
            follows_failure(routed, *notification, app_id@, error),
    {
        let vapid = match &notification.subscription.vapid {
            Some(v) => Some(v.clone()),
            None => None,
        };
        let handled = handle_error(
            error,
            PLATFORM,
            app_id,
            notification.subscription.user.uaid,
            vapid,
        );
        Routed { result: Err(handled.error), effects: handled.effects }
    }

    /// Where a caller finds a message, if its identifier makes a URL under
    /// the endpoint.
    pub fn location(&self, message_id: &str) -> (location: Option<String>)
        ensures
            text_of(location) == url_joined(self.endpoint(), message_path(message_id@)),
    {
        message_location(self.endpoint_url.as_str(), message_id)
    }

    /// Decides what follows the send of a notification, given how the send
    /// ended. The identifier of a message that was sent must make a URL
    /// under the endpoint.
    pub fn complete_notification(
        &self,
        notification: &Notification,
        app_id: &str,
        outcome: Result<(), RouterError>,
    ) -> (routed: Routed)
        requires
            outcome is Ok ==> url_joined(self.endpoint(), message_path(notification.message_id@))
                is Some,
        ensures
            match outcome {
                Ok(_) => follows_success(
                    routed,
                    *notification,
                    app_id@,
                    url_joined(self.endpoint(), message_path(notification.message_id@))->0,
                ),
                Err(error) => follows_failure(routed, *notification, app_id@, error),
            },
    {
        match outcome {
            Ok(_) => {
                let location = self.location(notification.message_id.as_str());
                Self::route_success(notification, app_id, location.unwrap())
            },
            Err(error) => Self::route_failure(notification, app_id, error),
        }
    }

    /// Decides what follows the send of a notification, given how the send
    /// ended. There is nothing to answer where the message was sent and its
    /// identifier makes no URL under the endpoint.
    pub fn try_complete_notification(
        &self,
        notification: &Notification,
        app_id: &str,
        outcome: Result<(), RouterError>,
    ) -> (routed: Option<Routed>)
        ensures
            routed is None <==> (outcome is Ok && url_joined(
                self.endpoint(),
                message_path(notification.message_id@),
            ) is None),
            routed matches Some(r) ==> match outcome {
                Ok(_) => follows_success(
                    r,
                    *notification,
                    app_id@,
                    url_joined(self.endpoint(), message_path(notification.message_id@))->0,
                ),
                Err(error) => follows_failure(r, *notification, app_id@, error),
            },
    {
        if outcome.is_ok() && self.location(notification.message_id.as_str()).is_none() {
            None
        } else {
            Some(self.complete_notification(notification, app_id, outcome))
        }
    }
}

impl<C> Router for WnsRouter<C> {
    type Client = C;

    open spec fn clients(&self) -> Map<Seq<char>, C> {
        self.pool()
    }

    /// Makes the routing data to store for a device that registers for an
    /// application: the token and the application identifier. Fails where
    /// the router has no client for the application, and only there.
    fn register(&self, router_data_input: &RouterDataInput, app_id: &str) -> (data: Result<
        RouterData,
        RouterError,
    >)
        ensures
            match data {
                Ok(d) => self.pool().contains_key(app_id@) && d@ == Map::<
                    Seq<char>,
                    RouterValueView,
                >::empty().insert("token"@, RouterValueView::Text(router_data_input.token@)).insert(
                    "app_id"@,
                    RouterValueView::Text(app_id@),
                ),
                Err(e) => {
                    &&& !self.pool().contains_key(app_id@)
                    &&& e matches RouterError::Wns(WnsError::InvalidAppId(id))
                    &&& id@ == app_id@
                },
            },
    {
        if !self.clients.contains_key(app_id) {
            return Err(RouterError::Wns(WnsError::InvalidAppId(String::from_str(app_id))));
        }
        let mut router_data = RouterData::new();
        router_data.insert(
            String::from_str("token"),
            RouterValue::Text(router_data_input.token.clone()),
        );
        router_data.insert(String::from_str("app_id"), RouterValue::Text(String::from_str(app_id)));
        Ok(router_data)
    }

    /// Decides how to send a notification: through which client, to which
    /// token, with which TTL and body. Fails, before anything is sent, where
    /// the stored routing data lacks a key or names an application that has
    /// no client.
    fn route_notification(&self, notification: &Notification) -> (dispatch: Result<
        Dispatch<'_, C>,
        ApiError,
    >)
        ensures
            match notification.subscription.user.router_data {
                None => dispatch matches Err(e) && e.kind == ApiErrorKind::Router(
                    RouterError::Wns(WnsError::NoRegistrationToken),
                ),
                Some(data) => match routing_of(data@) {
                    Err(failure) => dispatch matches Err(e) && e.kind == ApiErrorKind::Router(
                        RouterError::Wns(failure),
                    ),
                    Ok((token, app_id)) => if self.pool().contains_key(app_id) {
                        &&& dispatch matches Ok(d)
                        &&& *d.client == self.pool()[app_id]
                        &&& d.app_id@ == app_id
                        &&& d.routing_token@ == token
                        &&& d.ttl as int == effective_ttl(
                            self.min_ttl() as int,
                            notification.headers.ttl as int,
                        )
                        &&& d.message_data.deep_view() == message_data(*notification)
                    } else {
                        &&& dispatch matches Err(e)
                        &&& e.kind matches ApiErrorKind::Router(
                            RouterError::Wns(WnsError::InvalidAppId(id)),
                        )
                        &&& id@ == app_id
                    },
                },
            },
    {
        let router_data = match &notification.subscription.user.router_data {
            Some(data) => data,
            None => {
                return Err(
                    ApiError::from(
                        ApiErrorKind::Router(RouterError::Wns(WnsError::NoRegistrationToken)),
                    ),
                );
            },
        };
        let (routing_token, app_id) = match self.routing_info(router_data) {
            Ok(info) => info,
            Err(e) => {
                return Err(e);
            },
        };
        let ttl = clamp_ttl(self.settings.min_ttl, notification.headers.ttl);
        let client = match self.clients.get(app_id.as_str()) {
            Some(client) => client,
            None => {
                return Err(
                    ApiError::from(
                        ApiErrorKind::Router(RouterError::Wns(WnsError::InvalidAppId(app_id))),
                    ),
                );
            },
        };
        let message_data = build_message_data(notification);
        Ok(Dispatch { client, app_id, routing_token, ttl, message_data })
    }
}

/// After a failed send the user is removed exactly where the relay no
/// longer knows the registration: then once, and the user of the
/// notification. Whatever the failure, the answer is that failure itself,
/// wrapped; a lost registration answers 410 with error number 106.
pub proof fn lemma_failure_prunes_only_lost_registrations(
    routed: Routed,
    notification: Notification,
    app_id: Seq<char>,
    error: RouterError,
)
    requires
        follows_failure(routed, notification, app_id, error),
    ensures
        routed.result matches Err(e) && e.kind == ApiErrorKind::Router(error),
        forall|i: int|
            0 <= i < routed.effects@.len() ==> ((#[trigger] routed.effects@[i]) is RemoveUser <==> (
            error is NotFound && i == 1)),
        error is NotFound ==> routed.effects@[1] == Effect::RemoveUser(
            notification.subscription.user.uaid,
        ) && api_status(ApiErrorKind::Router(error)) == 410 && api_errno(
            ApiErrorKind::Router(error),
        ) == Some(106usize),
{
}

/// The relay gets the TTL that the policy allows; the caller gets back the
/// TTL that it asked for, also where the two differ.
pub proof fn lemma_answer_echoes_requested_ttl(
    routed: Routed,
    notification: Notification,
    app_id: Seq<char>,
    location: Seq<char>,
    floor: u64,
)
    requires
        follows_success(routed, notification, app_id, location),
    ensures
        routed.result matches Ok(response) && response.ttl == notification.headers.ttl,
        notification.headers.ttl < floor <= MAX_TTL ==> effective_ttl(
            floor as int,
            notification.headers.ttl as int,
        ) == floor,
        notification.headers.ttl > MAX_TTL ==> effective_ttl(
            floor as int,
            notification.headers.ttl as int,
        ) == MAX_TTL,
{
}

/// A failure among the first clients is a failure of the whole run.
pub proof fn lemma_first_failure_stays<C>(built: Seq<(String, Result<C, Cause>)>, k: int)
    requires
        0 <= k <= built.len(),
        first_failure(built.take(k)) is Some,
    ensures
        first_failure(built) == first_failure(built.take(k)),
    decreases built.len() - k,
{
    if k == built.len() {
        assert(built.take(k) =~= built);
    } else {
        assert(built.take(k + 1).drop_last() =~= built.take(k));
        lemma_first_failure_stays(built, k + 1);
    }
}

} // verus!
