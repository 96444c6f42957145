//! Error types and transformations.
//!
//! Every failure of the service is one `ApiErrorKind`. A kind decides the
//! HTTP status of the answer, the error number that is published for it,
//! and the message; an `ApiError` adds the stack trace of the place where
//! the failure was first seen.

use crate::cause::{cause_chain, clone_texts, Cause};
use crate::routers::wns::error::WnsError;
use crate::routers::{router_errno, router_message, router_sources, router_status, RouterError};
use crate::status::{canonical_reason, StatusCode};
use crate::text::{decimal, decimal_string, join_text, text_of};
use crate::validation::{errno_from_validation_errors, validation_errno, ValidationErrors};
use vstd::prelude::*;

verus! {

/// A link for more info on the returned error.
pub const ERROR_URL: &'static str =
    "http://autopush.readthedocs.io/en/latest/http.html#error-codes";

/// A stack trace, as the `backtrace` crate captures it.
#[verifier::external_type_specification]
#[verifier::external_body]
pub struct ExBacktrace(backtrace::Backtrace);

/// Calls `backtrace::Backtrace::new`, which walks the stack of the running
/// thread. What it finds depends on where and on which machine it runs, so
/// nothing is said of the trace.
#[verifier::external_body]
fn capture_backtrace() -> (trace: backtrace::Backtrace) {
    backtrace::Backtrace::new()
}

/// Renders a trace with the `Debug` impl of `backtrace::Backtrace`. The text
/// depends on the machine and on the symbols at hand, so nothing is said of
/// it.
#[verifier::external_body]
fn backtrace_text(trace: &backtrace::Backtrace) -> (text: String) {
    format!("{:?}", trace)
}

/// The JSON string literal that `serde_json` writes for a text: the text in
/// double quotes, with the characters that JSON does not take as they are
/// written as escapes.
pub uninterp spec fn json_quoted(text: Seq<char>) -> Seq<char>;

/// Makes a `serde_json::Value::String` of the text and renders it with the
/// `Display` impl of `serde_json::Value`, which writes compact JSON. The
/// text alone decides what comes back, which the contract names.
#[verifier::external_body]
fn json_quote(text: &str) -> (quoted: String)
    ensures
        quoted@ == json_quoted(text@),
{
    serde_json::Value::String(text.to_owned()).to_string()
}

/// How reading a request payload failed.
#[derive(Clone, Copy, Debug, PartialEq, Eq, Structural)]
pub enum PayloadErrorKind {
    /// The payload ended before it was complete.
    Incomplete,
    /// The content encoding of the stream is corrupt.
    EncodingCorrupted,
    /// The payload reached the size limit.
    Overflow,
    /// The length of the payload is unknown.
    UnknownLength,
    /// The HTTP/2 layer failed.
    Http2Payload,
    /// Reading failed.
    Io,
}

/// A failure to read a request payload.
#[derive(Clone, Debug, PartialEq, Eq)]
pub struct PayloadError {
    /// What went wrong.
    pub kind: PayloadErrorKind,
    /// How the failure reads.
    pub message: String,
}

/// The number of the HTTP status of a payload failure: 413 where the size
/// limit was reached, 400 for every other.
pub open spec fn payload_status(e: PayloadError) -> u16 {
    if e.kind is Overflow {
        413
    } else {
        400
    }
}

impl PayloadError {
    /// The HTTP status to answer with.
    pub fn status_code(&self) -> (status: StatusCode)
        ensures
            status.number() == payload_status(*self),
    {
        match self.kind {
            PayloadErrorKind::Overflow => StatusCode::payload_too_large(),
            _ => StatusCode::bad_request(),
        }
    }
}

/// The possible errors this application could encounter.
#[derive(Debug, PartialEq, Eq)]
pub enum ApiErrorKind {
    /// Input or output failed.
    Io(Cause),
    /// A metric could not be sent.
    Metrics(Cause),
    /// The request did not pass validation.
    Validation(ValidationErrors),
    /// The request payload could not be read.
    PayloadError(PayloadError),
    /// The VAPID header was refused.
    VapidError(Cause),
    /// A router could not deliver.
    Router(RouterError),
    /// The authorization token was refused.
    Jwt(Cause),
    /// The hash of the token could not be checked.
    TokenHashValidation(Cause),
    /// The storage failed.
    Database(Cause),
    /// The token in the request is not valid.
    InvalidToken,
    /// There is no user with this UAID.
    NoUser,
    /// The user has no such subscription.
    NoSubscription,
    /// A specific issue with the encryption headers.
    InvalidEncryption(String),
    /// The payload is at or over the size given.
    PayloadTooLarge(usize),
    /// Used if the API version given is not v1 or v2.
    InvalidApiVersion,
    /// The request has no TTL.
    NoTTL,
    /// A fault of the service itself.
    Internal(String),
}

impl From<RouterError> for ApiErrorKind {
    fn from(error: RouterError) -> (kind: ApiErrorKind) {
        ApiErrorKind::Router(error)
    }
}

impl vstd::std_specs::convert::FromSpecImpl<RouterError> for ApiErrorKind {
    open spec fn obeys_from_spec() -> bool {
        true
    }

    open spec fn from_spec(error: RouterError) -> ApiErrorKind {
        ApiErrorKind::Router(error)
    }
}

impl From<WnsError> for ApiErrorKind {
    fn from(error: WnsError) -> (kind: ApiErrorKind) {
        ApiErrorKind::Router(RouterError::Wns(error))
    }
}

impl vstd::std_specs::convert::FromSpecImpl<WnsError> for ApiErrorKind {
    open spec fn obeys_from_spec() -> bool {
        true
    }

    open spec fn from_spec(error: WnsError) -> ApiErrorKind {
        ApiErrorKind::Router(RouterError::Wns(error))
    }
}

impl From<ValidationErrors> for ApiErrorKind {
    fn from(errors: ValidationErrors) -> (kind: ApiErrorKind) {
        ApiErrorKind::Validation(errors)
    }
}

impl vstd::std_specs::convert::FromSpecImpl<ValidationErrors> for ApiErrorKind {
    open spec fn obeys_from_spec() -> bool {
        true
    }

    open spec fn from_spec(errors: ValidationErrors) -> ApiErrorKind {
        ApiErrorKind::Validation(errors)
    }
}

/// The number of the HTTP status that answers a failure.
pub open spec fn api_status(kind: ApiErrorKind) -> u16 {
    match kind {
        ApiErrorKind::PayloadError(e) => payload_status(e),
        ApiErrorKind::Router(e) => router_status(e),
        ApiErrorKind::Validation(_)
        | ApiErrorKind::InvalidEncryption(_)
        | ApiErrorKind::TokenHashValidation(_)
        | ApiErrorKind::NoTTL => 400,
        ApiErrorKind::NoUser | ApiErrorKind::NoSubscription => 410,
        ApiErrorKind::VapidError(_) | ApiErrorKind::Jwt(_) => 401,
        ApiErrorKind::InvalidToken | ApiErrorKind::InvalidApiVersion => 404,
        ApiErrorKind::PayloadTooLarge(_) => 413,
        ApiErrorKind::Io(_)
        | ApiErrorKind::Metrics(_)
        | ApiErrorKind::Database(_)
        | ApiErrorKind::Internal(_) => 500,
    }
}

/// The error number that is published for a failure, if one is.
pub open spec fn api_errno(kind: ApiErrorKind) -> Option<usize> {
    match kind {
        ApiErrorKind::Router(e) => router_errno(e),
        ApiErrorKind::Validation(e) => validation_errno(e),
        ApiErrorKind::InvalidToken | ApiErrorKind::InvalidApiVersion => Some(102usize),
        ApiErrorKind::NoUser => Some(103usize),
        ApiErrorKind::PayloadError(e) => if e.kind is Overflow {
            Some(104usize)
        } else {
            None
        },
        ApiErrorKind::PayloadTooLarge(_) => Some(104usize),
        ApiErrorKind::NoSubscription => Some(106usize),
        ApiErrorKind::VapidError(_)
        | ApiErrorKind::TokenHashValidation(_)
        | ApiErrorKind::Jwt(_) => Some(109usize),
        ApiErrorKind::InvalidEncryption(_) => Some(110usize),
        ApiErrorKind::NoTTL => Some(111usize),
        ApiErrorKind::Internal(_) => Some(999usize),
        ApiErrorKind::Io(_) | ApiErrorKind::Metrics(_) | ApiErrorKind::Database(_) => None,
    }
}

/// How a failure reads.
pub open spec fn api_message(kind: ApiErrorKind) -> Seq<char> {
    match kind {
        ApiErrorKind::Io(cause) => cause.message@,
        ApiErrorKind::Metrics(cause) => cause.message@,
        ApiErrorKind::Validation(e) => e.message@,
        ApiErrorKind::PayloadError(e) => e.message@,
        ApiErrorKind::VapidError(cause) => cause.message@,
        ApiErrorKind::Router(e) => router_message(e),
        ApiErrorKind::Jwt(cause) => cause.message@,
        ApiErrorKind::TokenHashValidation(_) => "Error while validating token"@,
        ApiErrorKind::Database(cause) => "Database error: "@ + cause.message@,
        ApiErrorKind::InvalidToken => "Invalid token"@,
        ApiErrorKind::NoUser => "UAID not found"@,
        ApiErrorKind::NoSubscription => "No such subscription"@,
        ApiErrorKind::InvalidEncryption(detail) => detail@,
        ApiErrorKind::PayloadTooLarge(limit) => "Data payload must be smaller than "@ + decimal(
            limit as nat,
        ) + " bytes"@,
        ApiErrorKind::InvalidApiVersion => "Invalid API version"@,
        ApiErrorKind::NoTTL => "Missing TTL value"@,
        ApiErrorKind::Internal(detail) => detail@,
    }
}

/// The messages of the failures beneath a failure, nearest first. A kind
/// that only passes an outside failure on has that failure's sources; a kind
/// with a message of its own has the outside failure itself as its first
/// source.
pub open spec fn api_sources(kind: ApiErrorKind) -> Seq<Seq<char>> {
    match kind {
        ApiErrorKind::Io(cause) => cause.sources.deep_view(),
        ApiErrorKind::Metrics(cause) => cause.sources.deep_view(),
        ApiErrorKind::VapidError(cause) => cause.sources.deep_view(),
        ApiErrorKind::Jwt(cause) => cause.sources.deep_view(),
        ApiErrorKind::Router(e) => router_sources(e),
        ApiErrorKind::TokenHashValidation(cause) => cause_chain(cause),
        ApiErrorKind::Database(cause) => cause_chain(cause),
        _ => Seq::empty(),
    }
}

impl ApiErrorKind {
    /// Get the associated HTTP status code.
    pub fn status(&self) -> (status: StatusCode)
        ensures
            status.number() == api_status(*self),
    {
        match self {
            ApiErrorKind::PayloadError(e) => e.status_code(),
            ApiErrorKind::Router(e) => e.status(),
            ApiErrorKind::Validation(_)
            | ApiErrorKind::InvalidEncryption(_)
            | ApiErrorKind::TokenHashValidation(_)
            | ApiErrorKind::NoTTL => StatusCode::bad_request(),
            ApiErrorKind::NoUser | ApiErrorKind::NoSubscription => StatusCode::gone(),
            ApiErrorKind::VapidError(_) | ApiErrorKind::Jwt(_) => StatusCode::unauthorized(),
            ApiErrorKind::InvalidToken | ApiErrorKind::InvalidApiVersion => {
                StatusCode::not_found()
            },
            ApiErrorKind::PayloadTooLarge(_) => StatusCode::payload_too_large(),
            ApiErrorKind::Io(_)
            | ApiErrorKind::Metrics(_)
            | ApiErrorKind::Database(_)
            | ApiErrorKind::Internal(_) => StatusCode::internal_server_error(),
        }
    }

    /// Get the associated error number.
    pub fn errno(&self) -> (errno: Option<usize>)
        ensures
            errno == api_errno(*self),
    {
        match self {
            ApiErrorKind::Router(e) => e.errno(),
            ApiErrorKind::Validation(e) => errno_from_validation_errors(e),
            ApiErrorKind::InvalidToken | ApiErrorKind::InvalidApiVersion => Some(102),
            ApiErrorKind::NoUser => Some(103),
            ApiErrorKind::PayloadError(e) => match e.kind {
                PayloadErrorKind::Overflow => Some(104),
                _ => None,
            },
            ApiErrorKind::PayloadTooLarge(_) => Some(104),
            ApiErrorKind::NoSubscription => Some(106),
            ApiErrorKind::VapidError(_)
            | ApiErrorKind::TokenHashValidation(_)
            | ApiErrorKind::Jwt(_) => Some(109),
            ApiErrorKind::InvalidEncryption(_) => Some(110),
            ApiErrorKind::NoTTL => Some(111),
            ApiErrorKind::Internal(_) => Some(999),
            ApiErrorKind::Io(_) | ApiErrorKind::Metrics(_) | ApiErrorKind::Database(_) => None,
        }
    }

    /// How the failure reads.
    pub fn message(&self) -> (message: String)
        ensures
            message@ == api_message(*self),
    {
        match self {
            ApiErrorKind::Io(cause) => cause.message.clone(),
            ApiErrorKind::Metrics(cause) => cause.message.clone(),
            ApiErrorKind::Validation(e) => e.message.clone(),
            ApiErrorKind::PayloadError(e) => e.message.clone(),
            ApiErrorKind::VapidError(cause) => cause.message.clone(),
            ApiErrorKind::Router(e) => e.message(),
            ApiErrorKind::Jwt(cause) => cause.message.clone(),
            ApiErrorKind::TokenHashValidation(_) => String::from_str(
                "Error while validating token",
            ),
            ApiErrorKind::Database(cause) => join_text("Database error: ", cause.message.as_str()),
            ApiErrorKind::InvalidToken => String::from_str("Invalid token"),
            ApiErrorKind::NoUser => String::from_str("UAID not found"),
            ApiErrorKind::NoSubscription => String::from_str("No such subscription"),
            ApiErrorKind::InvalidEncryption(detail) => detail.clone(),
            ApiErrorKind::PayloadTooLarge(limit) => {
                let digits = decimal_string(*limit);
                let mut text = join_text("Data payload must be smaller than ", digits.as_str());
                text.append(" bytes");
                text
            },
            ApiErrorKind::InvalidApiVersion => String::from_str("Invalid API version"),
            ApiErrorKind::NoTTL => String::from_str("Missing TTL value"),
            ApiErrorKind::Internal(detail) => detail.clone(),
        }
    }

    /// The messages of the failures beneath this one, nearest first.
    pub fn sources(&self) -> (messages: Vec<String>)
        ensures
            messages.deep_view() == api_sources(*self),
    {
        match self {
            ApiErrorKind::Io(cause) => clone_texts(&cause.sources),
            ApiErrorKind::Metrics(cause) => clone_texts(&cause.sources),
            ApiErrorKind::VapidError(cause) => clone_texts(&cause.sources),
            ApiErrorKind::Jwt(cause) => clone_texts(&cause.sources),
            ApiErrorKind::Router(e) => e.sources(),
            ApiErrorKind::TokenHashValidation(cause) => cause.chain(),
            ApiErrorKind::Database(cause) => cause.chain(),
            _ => {
                let messages: Vec<String> = Vec::new();
                assert(messages.deep_view() =~= api_sources(*self));
                messages
            },
        }
    }
}

/// The lines that name, one after the other, the failures beneath a failure.
pub open spec fn caused_by(sources: Seq<Seq<char>>) -> Seq<char>
    decreases sources.len(),
{
    if sources.len() == 0 {
        Seq::empty()
    } else {
        caused_by(sources.drop_last()) + "\n\nCaused by: "@ + sources.last()
    }
}

/// The full report of a failure: its message, the trace of where it was
/// first seen, and every failure beneath it, innermost last.
pub open spec fn error_report(kind: ApiErrorKind, trace: Seq<char>) -> Seq<char> {
    "Error: "@ + api_message(kind) + "\nBacktrace: \n"@ + trace + caused_by(api_sources(kind))
}

/// Writes the full report of a failure around the text of its trace.
pub fn render_report(kind: &ApiErrorKind, trace: &str) -> (report: String)
    ensures
        report@ == error_report(*kind, trace@),
{
    let message = kind.message();
    let mut report = join_text("Error: ", message.as_str());
    report.append("\nBacktrace: \n");
    report.append(trace);
    let sources = kind.sources();
    let ghost head = report@;
    let ghost all = sources.deep_view();
    assert(all.take(0) =~= Seq::<Seq<char>>::empty());
    assert(report@ =~= head + caused_by(all.take(0)));
    let mut i: usize = 0;
    while i < sources.len()
        invariant
            i <= sources.len(),
            all == sources.deep_view(),
            report@ == head + caused_by(all.take(i as int)),
        decreases sources.len() - i,
    {
        report.append("\n\nCaused by: ");
        report.append(sources[i].as_str());
        proof {
            let longer = all.take(i + 1);
            assert(longer.drop_last() =~= all.take(i as int));
            assert(longer.last() == sources[i as int]@);
            assert(report@ =~= head + caused_by(longer));
        }
        i = i + 1;
    }
    assert(all.take(i as int) =~= all);
    report
}

/// The body of the answer to a failed request. These five fields are what
/// goes over the wire, under these names and in this order.
#[derive(Clone, Debug, PartialEq, Eq)]
pub struct ErrorBody {
    /// The number of the HTTP status.
    pub code: u16,
    /// The published error number, if there is one.
    pub errno: Option<usize>,
    /// The reason phrase of the HTTP status.
    pub error: Option<String>,
    /// How the failure reads.
    pub message: String,
    /// Where to read more.
    pub more_info: String,
}

/// Whether a body is the one that renders a failure.
pub open spec fn renders(body: ErrorBody, kind: ApiErrorKind) -> bool {
    &&& body.code == api_status(kind)
    &&& body.errno == api_errno(kind)
    &&& text_of(body.error) == canonical_reason(api_status(kind))
    &&& body.message@ == api_message(kind)
    &&& body.more_info@ == ERROR_URL@
}

/// One value in the body of an answer.
#[derive(Clone, Debug, PartialEq, Eq)]
pub enum BodyValue {
    /// No value.
    Null,
    /// A number.
    Number(usize),
    /// A text.
    Text(String),
}

/// What a body value holds.
pub enum BodyValueView {
    Null,
    Number(usize),
    Text(Seq<char>),
}

impl View for BodyValue {
    type V = BodyValueView;

    open spec fn view(&self) -> BodyValueView {
        match self {
            BodyValue::Null => BodyValueView::Null,
            BodyValue::Number(n) => BodyValueView::Number(*n),
            BodyValue::Text(t) => BodyValueView::Text(t@),
        }
    }
}

/// The names of the fields of a body, in wire order.
pub open spec fn body_keys() -> Seq<Seq<char>> {
    seq!["code"@, "errno"@, "error"@, "message"@, "more_info"@]
}

/// The values of the fields of a body, in wire order.
pub open spec fn body_values(body: ErrorBody) -> Seq<BodyValueView> {
    seq![
        BodyValueView::Number(body.code as usize),
        match body.errno {
            Some(n) => BodyValueView::Number(n),
            None => BodyValueView::Null,
        },
        match body.error {
            Some(t) => BodyValueView::Text(t@),
            None => BodyValueView::Null,
        },
        BodyValueView::Text(body.message@),
        BodyValueView::Text(body.more_info@),
    ]
}

/// How JSON writes an optional number.
pub open spec fn json_number(value: Option<usize>) -> Seq<char> {
    match value {
        Some(n) => decimal(n as nat),
        None => "null"@,
    }
}

/// How JSON writes an optional text.
pub open spec fn json_text(value: Option<String>) -> Seq<char> {
    match value {
        Some(t) => json_quoted(t@),
        None => "null"@,
    }
}

/// The body as it goes over the wire: one JSON object with the five fields
/// in order, written without spaces.
pub open spec fn body_json(body: ErrorBody) -> Seq<char> {
    "{\"code\":"@ + decimal(body.code as nat) + ",\"errno\":"@ + json_number(body.errno)
        + ",\"error\":"@ + json_text(body.error) + ",\"message\":"@ + json_quoted(body.message@)
        + ",\"more_info\":"@ + json_quoted(body.more_info@) + "}"@
}

/// Every failure has a status that HTTP knows, and status and error number
/// go by this table.
pub proof fn lemma_status_and_errno_table(kind: ApiErrorKind)
    ensures
        100 <= api_status(kind) < 1000,
        kind matches ApiErrorKind::PayloadError(e) ==> if e.kind is Overflow {
            api_status(kind) == 413 && api_errno(kind) == Some(104usize)
        } else {
            api_status(kind) == 400 && api_errno(kind) is None
        },
        kind is PayloadTooLarge ==> api_status(kind) == 413 && api_errno(kind) == Some(104usize),
        kind matches ApiErrorKind::Validation(e) ==> api_status(kind) == 400 && api_errno(kind)
            == validation_errno(e),
        kind is InvalidEncryption ==> api_status(kind) == 400 && api_errno(kind) == Some(
            110usize,
        ),
        kind is TokenHashValidation ==> api_status(kind) == 400 && api_errno(kind) == Some(
            109usize,
        ),
        kind is NoTTL ==> api_status(kind) == 400 && api_errno(kind) == Some(111usize),
        kind is NoUser ==> api_status(kind) == 410 && api_errno(kind) == Some(103usize),
        kind is NoSubscription ==> api_status(kind) == 410 && api_errno(kind) == Some(106usize),
        kind is VapidError || kind is Jwt ==> api_status(kind) == 401 && api_errno(kind) == Some(
            109usize,
        ),
        kind is InvalidToken || kind is InvalidApiVersion ==> api_status(kind) == 404
            && api_errno(kind) == Some(102usize),
        kind matches ApiErrorKind::Router(e) ==> api_status(kind) == router_status(e)
            && api_errno(kind) == router_errno(e),
        kind is Io || kind is Metrics || kind is Database ==> api_status(kind) == 500
            && api_errno(kind) is None,
        kind is Internal ==> api_status(kind) == 500 && api_errno(kind) == Some(999usize),
{
}

/// The body that renders a failure has the five fields of the wire, in
/// order; its code is the number of the failure's status and its message is
/// how the failure reads.
pub proof fn lemma_body_has_five_fields(body: ErrorBody, kind: ApiErrorKind)
    requires
        renders(body, kind),
    ensures
        body_keys().len() == 5,
        body_values(body).len() == 5,
        body_values(body)[0] == BodyValueView::Number(api_status(kind) as usize),
        body_values(body)[1] == match api_errno(kind) {
            Some(n) => BodyValueView::Number(n),
            None => BodyValueView::Null,
        },
        body_values(body)[2] == match canonical_reason(api_status(kind)) {
            Some(phrase) => BodyValueView::Text(phrase),
            None => BodyValueView::Null,
        },
        body_values(body)[3] == BodyValueView::Text(api_message(kind)),
        body_values(body)[4] == BodyValueView::Text(ERROR_URL@),
{
}

impl ErrorBody {
    /// The fields of the body as they go over the wire: each name with its
    /// value, in order.
    pub fn entries(&self) -> (entries: Vec<(String, BodyValue)>)
        ensures
            entries@.len() == 5,
            forall|i: int| 0 <= i < 5 ==> (#[trigger] entries@[i]).0@ == body_keys()[i],
            forall|i: int| 0 <= i < 5 ==> (#[trigger] entries@[i]).1@ == body_values(*self)[i],
    {
        let errno = match self.errno {
            Some(n) => BodyValue::Number(n),
            None => BodyValue::Null,
        };
        let error = match &self.error {
            Some(t) => BodyValue::Text(t.clone()),
            None => BodyValue::Null,
        };
        let mut entries: Vec<(String, BodyValue)> = Vec::new();
        entries.push((String::from_str("code"), BodyValue::Number(self.code as usize)));
        entries.push((String::from_str("errno"), errno));
        entries.push((String::from_str("error"), error));
        entries.push((String::from_str("message"), BodyValue::Text(self.message.clone())));
        entries.push((String::from_str("more_info"), BodyValue::Text(self.more_info.clone())));
        entries
    }

    /// Writes the body as the JSON text that goes over the wire.
    pub fn to_json(&self) -> (json: String)
        ensures
            json@ == body_json(*self),
    {
        let code = decimal_string(self.code as usize);
        let errno = match self.errno {
            Some(n) => decimal_string(n),
            None => String::from_str("null"),
        };
        let error = match &self.error {
            Some(t) => json_quote(t.as_str()),
            None => String::from_str("null"),
        };
        let message = json_quote(self.message.as_str());
        let more_info = json_quote(self.more_info.as_str());
        let mut json = join_text("{\"code\":", code.as_str());
        json.append(",\"errno\":");
        json.append(errno.as_str());
        json.append(",\"error\":");
        json.append(error.as_str());
        json.append(",\"message\":");
        json.append(message.as_str());
        json.append(",\"more_info\":");
        json.append(more_info.as_str());
        json.append("}");
        json
    }
}

/// An answer to a request, before it is put on the wire.
#[derive(Clone, Debug, PartialEq, Eq)]
pub struct HttpResponse {
    /// The status of the answer.
    pub status: StatusCode,
    /// The body, where the answer has one.
    pub body: Option<ErrorBody>,
}

/// What a blocking task hands back when it did not finish well.
#[derive(Debug)]
pub enum BlockingError {
    /// The task ran and failed.
    Error(ApiError),
    /// The task was canceled before it finished.
    Canceled,
}

/// The main error type.
#[derive(Debug)]
pub struct ApiError {
    pub kind: ApiErrorKind,
    pub backtrace: backtrace::Backtrace,
}

impl ApiError {
    /// Wraps a failure, together with the trace of the place of the call.
    pub fn from(kind: ApiErrorKind) -> (error: ApiError)
        ensures
            error.kind == kind,
    {
        ApiError { kind, backtrace: capture_backtrace() }
    }

    /// The failure of a blocking task: the task's own error as it is, or an
    /// internal fault where the task was canceled.
    pub fn from_blocking(inner: BlockingError) -> (error: ApiError)
        ensures
            match inner {
                BlockingError::Error(e) => error == e,
                BlockingError::Canceled => error.kind matches ApiErrorKind::Internal(detail)
                    && detail@ == "Db threadpool operation canceled"@,
            },
    {
        match inner {
            BlockingError::Error(e) => e,
            BlockingError::Canceled => ApiError::from(
                ApiErrorKind::Internal(String::from_str("Db threadpool operation canceled")),
            ),
        }
    }

    /// Render a 404 response: the bare status, with no body, whatever the
    /// request was.
    pub fn render_404() -> (response: HttpResponse)
        ensures
            response.status.number() == 404,
            response.body is None,
    {
        HttpResponse { status: StatusCode::not_found(), body: None }
    }

    /// The body that reports this error to the caller.
    pub fn body(&self) -> (body: ErrorBody)
        ensures
            renders(body, self.kind),
    {
        let status = self.kind.status();
        ErrorBody {
            code: status.as_u16(),
            errno: self.kind.errno(),
            error: status.canonical_reason(),
            message: self.kind.message(),
            more_info: String::from_str(ERROR_URL),
        }
    }

    /// The answer that reports this error to the caller: the status of its
    /// kind, and its body.
    pub fn error_response(&self) -> (response: HttpResponse)
        ensures
            response.status.number() == api_status(self.kind),
            response.body matches Some(body) && renders(body, self.kind),
    {
        HttpResponse { status: self.kind.status(), body: Some(self.body()) }
    }

    /// The full report of this error: message, trace, and every failure
    /// beneath it. The trace reads as the machine at hand renders it.
    pub fn to_string(&self) -> (report: String)
        ensures
            exists|trace: Seq<char>| report@ == error_report(self.kind, trace),
    {
        let trace = backtrace_text(&self.backtrace);
        render_report(&self.kind, trace.as_str())
    }
}

} // verus!
