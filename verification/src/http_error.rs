//! HTTP rejection grading: how each error of the server core maps to a
//! status code and an `ErrorResponse` body, the hand-built 429/503/504
//! bodies, the `Retry-After` hint, the `?consistency=` / `?ack=` query
//! values, and the redirect of a linearizable read to the primary.

use vstd::prelude::*;

use crate::cluster::ClusterNodeConfig;
use crate::cluster::ClusterRoster;
use crate::text::decimal;
use crate::text::opt_view;
use crate::text::push_decimal;

verus! {

pub const STATUS_TEMPORARY_REDIRECT: u16 = 307;

pub const STATUS_BAD_REQUEST: u16 = 400;

pub const STATUS_UNAUTHORIZED: u16 = 401;

pub const STATUS_FORBIDDEN: u16 = 403;

pub const STATUS_NOT_FOUND: u16 = 404;

pub const STATUS_TOO_MANY_REQUESTS: u16 = 429;

pub const STATUS_SERVICE_UNAVAILABLE: u16 = 503;

pub const STATUS_GATEWAY_TIMEOUT: u16 = 504;

/// Advisory `Retry-After` seconds for the shed / transient 429 and 503
/// responses: admission shedding, a briefly unavailable consensus group and a
/// linearizable read on a follower all typically clear within it.
pub const RETRY_AFTER_SECONDS: u64 = 1;

/// The errors of the server core that the HTTP layer tells apart; `Other`
/// stands for every other one.
#[derive(Debug, Clone, Copy, PartialEq, Eq)]
pub enum IggyErrorKind {
    StreamIdNotFound,
    TopicIdNotFound,
    PartitionNotFound,
    SegmentNotFound,
    ClientNotFound,
    ConsumerGroupIdNotFound,
    ConsumerGroupNameNotFound,
    ConsumerGroupMemberNotFound,
    ConsumerOffsetNotFound,
    ResourceNotFound,
    Unauthenticated,
    AccessTokenMissing,
    InvalidAccessToken,
    InvalidPersonalAccessToken,
    Unauthorized,
    TransientNotCommitted,
    InvalidStreamId,
    InvalidTopicId,
    InvalidStreamName,
    StreamNameAlreadyExists,
    InvalidTopicName,
    TopicNameAlreadyExists,
    ConsumerGroupNameAlreadyExists,
    PersonalAccessTokenAlreadyExists,
    InvalidOffset,
    InvalidConsumerGroupId,
    UserAlreadyExists,
    CannotEstablishConnection,
    Other,
}

/// An error of the server core as the HTTP layer reports it: its kind, and
/// the numeric code, snake_case name and message the core gives it.
#[derive(Debug, PartialEq, Eq)]
pub struct IggyError {
    pub kind: IggyErrorKind,
    pub code: u32,
    pub name: String,
    pub message: String,
}

/// The JSON error body every HTTP error carries. `id` is the core's numeric
/// code when the error wraps one, or the HTTP status for the hand-built
/// HTTP-layer errors.
#[derive(Debug, PartialEq, Eq)]
pub struct ErrorResponse {
    pub id: u32,
    pub code: String,
    pub reason: String,
    pub field: Option<String>,
}

/// A rendered rejection: status, optional JSON body, optional `Retry-After`
/// seconds and optional `Location`.
#[derive(Debug, PartialEq, Eq)]
pub struct HttpReply {
    pub status: u16,
    pub body: Option<ErrorResponse>,
    pub retry_after: Option<u64>,
    pub location: Option<String>,
}

// ---------------------------------------------------------------------------
// Grading of core errors
// ---------------------------------------------------------------------------

/// The status of a core error: missing entities are 404, missing or invalid
/// credentials 401, a denied permission 403, an op that never committed
/// (replay budget exhausted) a retryable 503, anything else a caller error
/// 400.
pub open spec fn spec_error_status(kind: IggyErrorKind) -> u16 {
    match kind {
        IggyErrorKind::StreamIdNotFound | IggyErrorKind::TopicIdNotFound
        | IggyErrorKind::PartitionNotFound | IggyErrorKind::SegmentNotFound
        | IggyErrorKind::ClientNotFound | IggyErrorKind::ConsumerGroupIdNotFound
        | IggyErrorKind::ConsumerGroupNameNotFound | IggyErrorKind::ConsumerGroupMemberNotFound
        | IggyErrorKind::ConsumerOffsetNotFound | IggyErrorKind::ResourceNotFound => STATUS_NOT_FOUND,
        IggyErrorKind::Unauthenticated | IggyErrorKind::AccessTokenMissing
        | IggyErrorKind::InvalidAccessToken | IggyErrorKind::InvalidPersonalAccessToken => STATUS_UNAUTHORIZED,
        IggyErrorKind::Unauthorized => STATUS_FORBIDDEN,
        IggyErrorKind::TransientNotCommitted => STATUS_SERVICE_UNAVAILABLE,
        _ => STATUS_BAD_REQUEST,
    }
}

/// The request field a core error blames, if any.
pub open spec fn spec_error_field(kind: IggyErrorKind) -> Option<Seq<char>> {
    match kind {
        IggyErrorKind::StreamIdNotFound | IggyErrorKind::InvalidStreamId => Some("stream_id"@),
        IggyErrorKind::TopicIdNotFound | IggyErrorKind::InvalidTopicId => Some("topic_id"@),
        IggyErrorKind::PartitionNotFound => Some("partition_id"@),
        IggyErrorKind::SegmentNotFound => Some("segment_id"@),
        IggyErrorKind::ClientNotFound => Some("client_id"@),
        IggyErrorKind::InvalidStreamName | IggyErrorKind::StreamNameAlreadyExists
        | IggyErrorKind::InvalidTopicName | IggyErrorKind::TopicNameAlreadyExists
        | IggyErrorKind::ConsumerGroupNameAlreadyExists
        | IggyErrorKind::PersonalAccessTokenAlreadyExists => Some("name"@),
        IggyErrorKind::InvalidOffset => Some("offset"@),
        IggyErrorKind::InvalidConsumerGroupId => Some("consumer_group_id"@),
        IggyErrorKind::UserAlreadyExists => Some("username"@),
        _ => None,
    }
}

/// Error kinds that name an entity (stream, topic, partition, segment,
/// client, consumer group or its member, consumer offset, resource) that
/// does not exist.
pub open spec fn names_missing_entity(kind: IggyErrorKind) -> bool {
    ||| kind is StreamIdNotFound
    ||| kind is TopicIdNotFound
    ||| kind is PartitionNotFound
    ||| kind is SegmentNotFound
    ||| kind is ClientNotFound
    ||| kind is ConsumerGroupIdNotFound
    ||| kind is ConsumerGroupNameNotFound
    ||| kind is ConsumerGroupMemberNotFound
    ||| kind is ConsumerOffsetNotFound
    ||| kind is ResourceNotFound
}

/// Error kinds that reject missing or invalid credentials.
pub open spec fn rejects_credentials(kind: IggyErrorKind) -> bool {
    ||| kind is Unauthenticated
    ||| kind is AccessTokenMissing
    ||| kind is InvalidAccessToken
    ||| kind is InvalidPersonalAccessToken
}

/// The status of a core error.
pub fn error_status(kind: IggyErrorKind) -> (s: u16)
    ensures
        s == spec_error_status(kind),
        names_missing_entity(kind) ==> s == 404,
        rejects_credentials(kind) ==> s == 401,
        kind is Unauthorized ==> s == 403,
        kind is TransientNotCommitted ==> s == 503,
        !names_missing_entity(kind) && !rejects_credentials(kind) && !(kind is Unauthorized) && !(
        kind is TransientNotCommitted) ==> s == 400,
{
    match kind {
        IggyErrorKind::StreamIdNotFound | IggyErrorKind::TopicIdNotFound
        | IggyErrorKind::PartitionNotFound | IggyErrorKind::SegmentNotFound
        | IggyErrorKind::ClientNotFound | IggyErrorKind::ConsumerGroupIdNotFound
        | IggyErrorKind::ConsumerGroupNameNotFound | IggyErrorKind::ConsumerGroupMemberNotFound
        | IggyErrorKind::ConsumerOffsetNotFound | IggyErrorKind::ResourceNotFound => STATUS_NOT_FOUND,
        IggyErrorKind::Unauthenticated | IggyErrorKind::AccessTokenMissing
        | IggyErrorKind::InvalidAccessToken | IggyErrorKind::InvalidPersonalAccessToken => STATUS_UNAUTHORIZED,
        IggyErrorKind::Unauthorized => STATUS_FORBIDDEN,
        IggyErrorKind::TransientNotCommitted => STATUS_SERVICE_UNAVAILABLE,
        _ => STATUS_BAD_REQUEST,
    }
}

/// The request field a core error blames, if any.
pub fn error_field(kind: IggyErrorKind) -> (f: Option<String>)
    ensures
        opt_view(f) == spec_error_field(kind),
{
    let name: Option<&'static str> = match kind {
        IggyErrorKind::StreamIdNotFound | IggyErrorKind::InvalidStreamId => Some("stream_id"),
        IggyErrorKind::TopicIdNotFound | IggyErrorKind::InvalidTopicId => Some("topic_id"),
        IggyErrorKind::PartitionNotFound => Some("partition_id"),
        IggyErrorKind::SegmentNotFound => Some("segment_id"),
        IggyErrorKind::ClientNotFound => Some("client_id"),
        IggyErrorKind::InvalidStreamName | IggyErrorKind::StreamNameAlreadyExists
        | IggyErrorKind::InvalidTopicName | IggyErrorKind::TopicNameAlreadyExists
        | IggyErrorKind::ConsumerGroupNameAlreadyExists
        | IggyErrorKind::PersonalAccessTokenAlreadyExists => Some("name"),
        IggyErrorKind::InvalidOffset => Some("offset"),
        IggyErrorKind::InvalidConsumerGroupId => Some("consumer_group_id"),
        IggyErrorKind::UserAlreadyExists => Some("username"),
        _ => None,
    };
    match name {
        Some(n) => Some(n.to_owned()),
        None => None,
    }
}

/// `b` is the error body `{id, code, reason, field}`.
pub open spec fn body_is(
    b: ErrorResponse,
    id: u32,
    code: Seq<char>,
    reason: Seq<char>,
    field: Option<Seq<char>>,
) -> bool {
    &&& b.id == id
    &&& b.code@ == code
    &&& b.reason@ == reason
    &&& opt_view(b.field) == field
}

/// `b` is the body that describes the core error `e`.
pub open spec fn body_describes(b: ErrorResponse, e: IggyError) -> bool {
    body_is(b, e.code, e.name@, e.message@, spec_error_field(e.kind))
}

impl ErrorResponse {
    /// The body that describes a core error: its code, name and message, and
    /// the field it blames.
    pub fn from_error(error: &IggyError) -> (b: ErrorResponse)
        ensures
            body_describes(b, *error),
    {
        ErrorResponse {
            id: error.code,
            code: error.name.clone(),
            reason: error.message.clone(),
            field: error_field(error.kind),
        }
    }
}

// ---------------------------------------------------------------------------
// Replies
// ---------------------------------------------------------------------------

pub open spec fn retry_hint(retry: bool) -> Option<u64> {
    if retry {
        Some(RETRY_AFTER_SECONDS)
    } else {
        None
    }
}

/// `r` is a JSON error reply with this status, body and retry hint.
pub open spec fn is_error_reply(
    r: HttpReply,
    status: u16,
    id: u32,
    code: Seq<char>,
    reason: Seq<char>,
    retry: bool,
) -> bool {
    &&& r.status == status
    &&& r.location is None
    &&& r.retry_after == retry_hint(retry)
    &&& r.body matches Some(b) && body_is(b, id, code, reason, None)
}

/// `r` renders the core error `e` with `status`.
pub open spec fn is_core_error_reply(r: HttpReply, status: u16, e: IggyError, retry: bool) -> bool {
    &&& r.status == status
    &&& r.location is None
    &&& r.retry_after == retry_hint(retry)
    &&& r.body matches Some(b) && body_describes(b, e)
}

/// `r` is the shared retryable 503 for a request that could not commit right
/// now, described by the core's connection-unavailable error `unavailable`.
pub open spec fn is_service_unavailable(r: HttpReply, unavailable: IggyError) -> bool {
    is_core_error_reply(r, STATUS_SERVICE_UNAVAILABLE, unavailable, true)
}

/// An error body for a hand-built HTTP error: `id` is the status, no field.
fn error_body(status: u16, code: &str, reason: &str) -> (b: ErrorResponse)
    ensures
        body_is(b, status as u32, code@, reason@, None),
{
    ErrorResponse { id: status as u32, code: code.to_owned(), reason: reason.to_owned(), field: None }
}

/// A JSON error reply for a hand-built HTTP error.
fn error_response(status: u16, code: &str, reason: &str, retry: bool) -> (r: HttpReply)
    ensures
        is_error_reply(r, status, status as u32, code@, reason@, retry),
{
    HttpReply {
        status,
        body: Some(error_body(status, code, reason)),
        retry_after: if retry {
            Some(RETRY_AFTER_SECONDS)
        } else {
            None
        },
        location: None,
    }
}

/// The shared retryable 503, rendered with the `CannotEstablishConnection`
/// error that the SDKs treat as a connection-level retry.
pub fn service_unavailable(unavailable: &IggyError) -> (r: HttpReply)
    requires
        unavailable.kind == IggyErrorKind::CannotEstablishConnection,
    ensures
        is_service_unavailable(r, *unavailable),
{
    HttpReply {
        status: STATUS_SERVICE_UNAVAILABLE,
        body: Some(ErrorResponse::from_error(unavailable)),
        retry_after: Some(RETRY_AFTER_SECONDS),
        location: None,
    }
}

/// 504 for an in-band request the partition plane did not answer in time.
pub fn gateway_timeout_response(code: &str, reason: &str) -> (r: HttpReply)
    ensures
        is_error_reply(r, STATUS_GATEWAY_TIMEOUT, STATUS_GATEWAY_TIMEOUT as u32, code@, reason@, false),
{
    error_response(STATUS_GATEWAY_TIMEOUT, code, reason, false)
}

/// 429 for a session at its in-flight write cap.
pub fn too_many_in_flight_response() -> (r: HttpReply)
    ensures
        is_error_reply(
            r,
            STATUS_TOO_MANY_REQUESTS,
            STATUS_TOO_MANY_REQUESTS as u32,
            "too_many_in_flight_writes"@,
            "session reached its in-flight write cap; await outstanding writes and retry"@,
            true,
        ),
{
    error_response(
        STATUS_TOO_MANY_REQUESTS,
        "too_many_in_flight_writes",
        "session reached its in-flight write cap; await outstanding writes and retry",
        true,
    )
}

/// 503 for a shard at its in-flight write budget across all sessions; a
/// distinct code so admission shedding is tellable from a consensus outage.
pub fn server_busy_response() -> (r: HttpReply)
    ensures
        is_error_reply(
            r,
            STATUS_SERVICE_UNAVAILABLE,
            STATUS_SERVICE_UNAVAILABLE as u32,
            "server_busy"@,
            "shard is at its in-flight write budget; retry with backoff"@,
            true,
        ),
{
    error_response(
        STATUS_SERVICE_UNAVAILABLE,
        "server_busy",
        "shard is at its in-flight write budget; retry with backoff",
        true,
    )
}

/// The fail-closed 503 for a linearizable read on a follower whose primary
/// cannot be resolved.
pub fn not_primary_response() -> (r: HttpReply)
    ensures
        is_error_reply(
            r,
            STATUS_SERVICE_UNAVAILABLE,
            STATUS_SERVICE_UNAVAILABLE as u32,
            "not_primary"@,
            "linearizable read requires the primary; retry against the leader"@,
            true,
        ),
{
    error_response(
        STATUS_SERVICE_UNAVAILABLE,
        "not_primary",
        "linearizable read requires the primary; retry against the leader",
        true,
    )
}

/// The write operations of the partition plane.
#[derive(Debug, Clone, Copy, PartialEq, Eq)]
pub enum Operation {
    SendMessages,
    StoreConsumerOffset,
    DeleteConsumerOffset,
}

/// `r` is the 504 for a partition write of kind `operation` whose commit
/// outcome is unknown.
pub open spec fn is_partition_timeout_reply(r: HttpReply, operation: Operation) -> bool {
    if operation == Operation::SendMessages {
        is_error_reply(
            r,
            STATUS_GATEWAY_TIMEOUT,
            STATUS_GATEWAY_TIMEOUT as u32,
            "produce_timeout"@,
            "produce was not acknowledged in time; the write may still commit"@,
            false,
        )
    } else {
        is_error_reply(
            r,
            STATUS_GATEWAY_TIMEOUT,
            STATUS_GATEWAY_TIMEOUT as u32,
            "offset_write_timeout"@,
            "consumer-offset write was not acknowledged in time; the write may still commit"@,
            false,
        )
    }
}

/// 504 for a partition write whose commit outcome is unknown, coded per write
/// kind so a produce timeout is tellable from an offset-write timeout.
pub fn partition_write_timeout_response(operation: Operation) -> (r: HttpReply)
    ensures
        is_partition_timeout_reply(r, operation),
{
    match operation {
        Operation::SendMessages => gateway_timeout_response(
            "produce_timeout",
            "produce was not acknowledged in time; the write may still commit",
        ),
        _ => gateway_timeout_response(
            "offset_write_timeout",
            "consumer-offset write was not acknowledged in time; the write may still commit",
        ),
    }
}

/// A core error or the legacy not-found fallback.
pub enum CustomError {
    Error(IggyError),
    ResourceNotFound,
}

/// `r` is the legacy 404 not-found body.
pub open spec fn is_not_found_reply(r: HttpReply) -> bool {
    is_error_reply(r, STATUS_NOT_FOUND, 404, "not_found"@, "Resource not found"@, false)
}

impl CustomError {
    /// The reply for a core error graded by its kind, or the legacy 404.
    pub fn reply(self) -> (r: HttpReply)
        ensures
            self matches CustomError::Error(e) ==> is_core_error_reply(r, spec_error_status(e.kind), e, false),
            self is ResourceNotFound ==> is_not_found_reply(r),
    {
        match self {
            CustomError::Error(error) => HttpReply {
                status: error_status(error.kind),
                body: Some(ErrorResponse::from_error(&error)),
                retry_after: None,
                location: None,
            },
            CustomError::ResourceNotFound => error_response(
                STATUS_NOT_FOUND,
                "not_found",
                "Resource not found",
                false,
            ),
        }
    }
}

/// Rejection for protected routes: a missing, invalid or expired credential
/// is the caller's fault (401 through the core-error grading), a VSR session
/// that cannot be established right now is a retryable 503 and never
/// masquerades as an auth failure.
pub enum AuthError {
    Unauthenticated(IggyError),
    SessionUnavailable,
}

impl AuthError {
    /// The reply for this rejection; `unavailable` describes the shared 503.
    pub fn reply(self, unavailable: &IggyError) -> (r: HttpReply)
        requires
            unavailable.kind == IggyErrorKind::CannotEstablishConnection,
        ensures
            self matches AuthError::Unauthenticated(e) ==> is_core_error_reply(
                r,
                spec_error_status(e.kind),
                e,
                false,
            ),
            self is SessionUnavailable ==> is_service_unavailable(r, *unavailable),
    {
        match self {
            AuthError::Unauthenticated(error) => CustomError::Error(error).reply(),
            AuthError::SessionUnavailable => service_unavailable(unavailable),
        }
    }
}

/// Rejection for an authenticated control-plane write: a caller-side or
/// committed business rejection, an evicted session (rendered like a
/// rejection), or a write that cannot commit right now (503).
pub enum WriteError {
    Rejected(IggyError),
    Evicted(IggyError),
    Unavailable,
}

impl WriteError {
    pub fn reply(self, unavailable: &IggyError) -> (r: HttpReply)
        requires
            unavailable.kind == IggyErrorKind::CannotEstablishConnection,
        ensures
            self matches WriteError::Rejected(e) ==> is_core_error_reply(r, spec_error_status(e.kind), e, false),
            self matches WriteError::Evicted(e) ==> is_core_error_reply(r, spec_error_status(e.kind), e, false),
            self is Unavailable ==> is_service_unavailable(r, *unavailable),
    {
        match self {
            WriteError::Rejected(error) => CustomError::Error(error).reply(),
            WriteError::Evicted(error) => CustomError::Error(error).reply(),
            WriteError::Unavailable => service_unavailable(unavailable),
        }
    }
}

/// Rejection for a data-plane partition write.
pub enum PartitionWriteError {
    /// Caller-side rejection, a typed pre-commit deny or a malformed reply.
    Rejected(IggyError),
    /// The stream, topic or partition does not resolve.
    NotFound,
    /// The in-process reply slot could not be installed.
    Unavailable,
    /// The session is at its in-flight write cap.
    TooManyInFlight,
    /// The shard is at its in-flight write budget.
    ServerBusy,
    /// No committed reply in time: the outcome is unknown.
    Timeout(Operation),
}

impl PartitionWriteError {
    pub fn reply(self, unavailable: &IggyError) -> (r: HttpReply)
        requires
            unavailable.kind == IggyErrorKind::CannotEstablishConnection,
        ensures
            self matches PartitionWriteError::Rejected(e) ==> is_core_error_reply(
                r,
                spec_error_status(e.kind),
                e,
                false,
            ),
            self is NotFound ==> is_not_found_reply(r),
            self is Unavailable ==> is_service_unavailable(r, *unavailable),
            self is TooManyInFlight ==> is_error_reply(
                r,
                STATUS_TOO_MANY_REQUESTS,
                STATUS_TOO_MANY_REQUESTS as u32,
                "too_many_in_flight_writes"@,
                "session reached its in-flight write cap; await outstanding writes and retry"@,
                true,
            ),
            self is ServerBusy ==> is_error_reply(
                r,
                STATUS_SERVICE_UNAVAILABLE,
                STATUS_SERVICE_UNAVAILABLE as u32,
                "server_busy"@,
                "shard is at its in-flight write budget; retry with backoff"@,
                true,
            ),
            self matches PartitionWriteError::Timeout(op) ==> is_partition_timeout_reply(r, op),
    {
        match self {
            PartitionWriteError::Rejected(error) => CustomError::Error(error).reply(),
            PartitionWriteError::NotFound => CustomError::ResourceNotFound.reply(),
            PartitionWriteError::Unavailable => service_unavailable(unavailable),
            PartitionWriteError::TooManyInFlight => too_many_in_flight_response(),
            PartitionWriteError::ServerBusy => server_busy_response(),
            PartitionWriteError::Timeout(operation) => partition_write_timeout_response(operation),
        }
    }
}

// ---------------------------------------------------------------------------
// Reads and the redirect to the primary
// ---------------------------------------------------------------------------

/// Whether a character's UTF-8 bytes may all stand in a header value: a byte
/// may be any from the space on except DEL, and the horizontal tab; every non-ASCII
/// character encodes to bytes of 128 and above, which are valid.
pub open spec fn valid_header_char(c: char) -> bool {
    (c >= ' ' && c != '\u{7f}') || c == '\t'
}

pub open spec fn valid_header_value(s: Seq<char>) -> bool {
    forall|i: int| 0 <= i < s.len() ==> valid_header_char(#[trigger] s[i])
}

/// `axum::http::HeaderValue::from_str` succeeds on `s`: it accepts a string
/// exactly when every one of its bytes is a valid header byte, which for
/// UTF-8 text is exactly when every character is.
#[verifier::external_body]
fn header_value_is_valid(s: &str) -> (b: bool)
    ensures
        b == valid_header_value(s@),
{
    axum::http::HeaderValue::from_str(s).is_ok()
}

/// Rejection for an authenticated read route.
pub enum ReadError {
    /// Caller-side or state-machine rejection.
    Rejected(IggyError),
    /// The requested entity is absent.
    NotFound,
    /// A linearizable read reached a follower and the primary's HTTP address
    /// did not resolve: fail-closed 503.
    NotPrimary,
    /// A linearizable read reached a follower whose primary resolved: 307 to
    /// this location.
    RedirectToPrimary(String),
    /// A partition read got no reply in time: 504, outcome unknown.
    Timeout,
}

/// `r` is the fail-closed 503 for a linearizable read off the primary.
pub open spec fn is_not_primary_reply(r: HttpReply) -> bool {
    is_error_reply(
        r,
        STATUS_SERVICE_UNAVAILABLE,
        STATUS_SERVICE_UNAVAILABLE as u32,
        "not_primary"@,
        "linearizable read requires the primary; retry against the leader"@,
        true,
    )
}

/// `r` is the 307 to `location`, or the fail-closed 503 when `location` is
/// not a valid header value.
pub open spec fn is_redirect_reply(r: HttpReply, location: Seq<char>) -> bool {
    if valid_header_value(location) {
        &&& r.status == STATUS_TEMPORARY_REDIRECT
        &&& r.body is None
        &&& r.retry_after is None
        &&& r.location matches Some(l) && l@ == location
    } else {
        is_not_primary_reply(r)
    }
}

/// 307 to the primary at `location`, or the fail-closed 503 when `location`
/// is not a valid header value.
pub fn primary_redirect_response(location: &str) -> (r: HttpReply)
    ensures
        is_redirect_reply(r, location@),
{
    if header_value_is_valid(location) {
        HttpReply {
            status: STATUS_TEMPORARY_REDIRECT,
            body: None,
            retry_after: None,
            location: Some(location.to_owned()),
        }
    } else {
        not_primary_response()
    }
}

impl ReadError {
    pub fn reply(self) -> (r: HttpReply)
        ensures
            self matches ReadError::Rejected(e) ==> is_core_error_reply(r, spec_error_status(e.kind), e, false),
            self is NotFound ==> is_not_found_reply(r),
            self is NotPrimary ==> is_not_primary_reply(r),
            self matches ReadError::RedirectToPrimary(l) ==> is_redirect_reply(r, l@),
            self is Timeout ==> is_error_reply(
                r,
                STATUS_GATEWAY_TIMEOUT,
                STATUS_GATEWAY_TIMEOUT as u32,
                "partition_read_timeout"@,
                "the partition owner did not answer the read in time; retry"@,
                false,
            ),
    {
        match self {
            ReadError::Rejected(error) => CustomError::Error(error).reply(),
            ReadError::NotFound => CustomError::ResourceNotFound.reply(),
            ReadError::NotPrimary => not_primary_response(),
            ReadError::RedirectToPrimary(location) => primary_redirect_response(location.as_str()),
            ReadError::Timeout => gateway_timeout_response(
                "partition_read_timeout",
                "the partition owner did not answer the read in time; retry",
            ),
        }
    }
}

/// Read consistency selected by the `?consistency=` query parameter:
/// `serializable` (the default) serves from local state, `linearizable` only
/// from the primary.
#[derive(Debug, Clone, Copy, PartialEq, Eq)]
pub enum Consistency {
    Serializable,
    Linearizable,
}

impl Consistency {
    /// The consistency a query value names, lower-case; any other value is a
    /// 400.
    pub fn parse(value: &str) -> (r: Option<Consistency>)
        ensures
            r == (if value@ == "serializable"@ {
                Some(Consistency::Serializable)
            } else if value@ == "linearizable"@ {
                Some(Consistency::Linearizable)
            } else {
                None
            }),
    {
        if crate::text::str_equals(value, "serializable") {
            Some(Consistency::Serializable)
        } else if crate::text::str_equals(value, "linearizable") {
            Some(Consistency::Linearizable)
        } else {
            None
        }
    }
}

impl Default for Consistency {
    fn default() -> (r: Self)
        ensures
            r == Consistency::Serializable,
    {
        Consistency::Serializable
    }
}

/// Produce acknowledgement selected by the `?ack=` query parameter:
/// `replicated` (the default) answers after the quorum commit, `none` answers
/// 202 right after dispatch.
#[derive(Debug, Clone, Copy, PartialEq, Eq)]
pub enum ProduceAck {
    Replicated,
    NoAck,
}

impl ProduceAck {
    /// The acknowledgement a query value names, lower-case; any other value
    /// is a 400.
    pub fn parse(value: &str) -> (r: Option<ProduceAck>)
        ensures
            r == (if value@ == "replicated"@ {
                Some(ProduceAck::Replicated)
            } else if value@ == "none"@ {
                Some(ProduceAck::NoAck)
            } else {
                None
            }),
    {
        if crate::text::str_equals(value, "replicated") {
            Some(ProduceAck::Replicated)
        } else if crate::text::str_equals(value, "none") {
            Some(ProduceAck::NoAck)
        } else {
            None
        }
    }
}

impl Default for ProduceAck {
    fn default() -> (r: Self)
        ensures
            r == ProduceAck::Replicated,
    {
        ProduceAck::Replicated
    }
}

/// The address and HTTP port of the primary: the first roster node whose
/// replica id is `primary_index`, when it exposes an HTTP port.
pub fn primary_http_endpoint(roster: &ClusterRoster, primary_index: u8) -> (r: Option<(String, u16)>)
    ensures
        r is None <==> (forall|i: int|
            0 <= i < roster.nodes@.len() ==> #[trigger] roster.nodes@[i].replica_id != primary_index) || (
        exists|i: int|
            0 <= i < roster.nodes@.len() && #[trigger] roster.nodes@[i].replica_id == primary_index
                && roster.nodes@[i].ports.http is None && forall|j: int|
                0 <= j < i ==> roster.nodes@[j].replica_id != primary_index),
        r matches Some(e) ==> exists|i: int|
            0 <= i < roster.nodes@.len() && #[trigger] roster.nodes@[i].replica_id == primary_index
                && roster.nodes@[i].ports.http == Some(e.1) && roster.nodes@[i].ip == e.0 && forall|j: int|
                0 <= j < i ==> roster.nodes@[j].replica_id != primary_index,
{
    let mut i: usize = 0;
    while i < roster.nodes.len()
        invariant
            i <= roster.nodes@.len(),
            forall|j: int| 0 <= j < i ==> roster.nodes@[j].replica_id != primary_index,
        decreases roster.nodes@.len() - i,
    {
        let node = &roster.nodes[i];
        if node.replica_id == primary_index {
            proof {
                assert forall|k: int|
                    0 <= k < roster.nodes@.len() && #[trigger] roster.nodes@[k].replica_id == primary_index
                        && roster.nodes@[k].ports.http is None && forall|j: int|
                        0 <= j < k ==> roster.nodes@[j].replica_id != primary_index implies k == i by {
                    if k > i {
                        assert(roster.nodes@[i as int].replica_id == primary_index);
                    }
                }
            }
            return match node.ports.http {
                Some(port) => Some((node.ip.clone(), port)),
                None => None,
            };
        }
        i += 1;
    }
    None
}

/// The `Location` of a redirect to `http://<host>:<port><path_and_query>`,
/// the host being the textual form of an address; an IPv6 host is bracketed
/// so the port is not ambiguous.
pub open spec fn spec_redirect_location(host: Seq<char>, ipv6: bool, port: u16, path_and_query: Seq<char>) -> Seq<char> {
    let h = if ipv6 {
        seq!['['] + host + seq![']']
    } else {
        host
    };
    "http://"@ + h + seq![':'] + decimal(port as nat) + path_and_query
}

/// The redirect `Location` for the address `host` (IPv6 when `ipv6`), the
/// HTTP `port` and the original path and query.
pub fn redirect_location(host: &str, ipv6: bool, port: u16, path_and_query: &str) -> (l: String)
    ensures
        l@ == spec_redirect_location(host@, ipv6, port, path_and_query@),
{
    let mut l = String::new();
    l.append("http://");
    if ipv6 {
        crate::text::push_char(&mut l, '[');
        l.append(host);
        crate::text::push_char(&mut l, ']');
    } else {
        l.append(host);
    }
    crate::text::push_char(&mut l, ':');
    push_decimal(&mut l, port as u64);
    l.append(path_and_query);
    proof {
        let h = if ipv6 {
            seq!['['] + host@ + seq![']']
        } else {
            host@
        };
        assert(l@ =~= "http://"@ + h + seq![':'] + decimal(port as nat) + path_and_query@);
    }
    l
}

impl ReadError {
    /// The grading of a linearizable read that reached a follower: a 307 to
    /// the primary when its redirect location resolved, else the
    /// fail-closed 503.
    pub fn for_follower(location: Option<String>) -> (e: ReadError)
        ensures
            match location {
                Some(l) => e matches ReadError::RedirectToPrimary(m) && m == l,
                None => e is NotPrimary,
            },
    {
        match location {
            Some(l) => ReadError::RedirectToPrimary(l),
            None => ReadError::NotPrimary,
        }
    }
}

// ---------------------------------------------------------------------------
// The view header
// ---------------------------------------------------------------------------

/// Health-probe path: public and pre-auth, so it never carries the
/// cluster-internal view number.
pub const PING_PATH: &'static str = "/ping";

pub open spec fn is_success_or_redirect(status: u16) -> bool {
    200 <= status <= 399
}

/// The view number stamped on a response: only on success and redirect
/// responses, never on `/ping`, and only while this node has live consensus
/// (`view` is `None` otherwise), since a fabricated number would mislead.
pub open spec fn spec_view_header(status: u16, path: Seq<char>, view: Option<u32>) -> Option<u32> {
    if path == PING_PATH@ || !is_success_or_redirect(status) {
        None
    } else {
        view
    }
}

pub fn view_header(status: u16, path: &str, view: Option<u32>) -> (h: Option<u32>)
    ensures
        h == spec_view_header(status, path@, view),
{
    if crate::text::str_equals(path, PING_PATH) {
        return None;
    }
    if !(200 <= status && status <= 399) {
        return None;
    }
    view
}

/// No error response carries the view number.
pub proof fn law_errors_never_carry_view(status: u16, path: Seq<char>, view: Option<u32>)
    requires
        status >= 400,
    ensures
        spec_view_header(status, path, view) is None,
{
}

/// Every core error is graded by what it says: a missing entity is 404
/// Not Found, rejected credentials 401 Unauthorized, a denied permission 403
/// Forbidden, an op that never committed 503 Service Unavailable, and every
/// other error a caller error, 400 Bad Request.
pub proof fn law_error_status_by_kind(kind: IggyErrorKind)
    ensures
        names_missing_entity(kind) ==> spec_error_status(kind) == 404,
        rejects_credentials(kind) ==> spec_error_status(kind) == 401,
        kind is Unauthorized ==> spec_error_status(kind) == 403,
        kind is TransientNotCommitted ==> spec_error_status(kind) == 503,
        !names_missing_entity(kind) && !rejects_credentials(kind) && !(kind is Unauthorized) && !(
        kind is TransientNotCommitted) ==> spec_error_status(kind) == 400,
        (spec_error_status(kind) == 404) == names_missing_entity(kind),
{
}

/// A core error blames the request field it is about: the stream id, the
/// topic id, the partition, segment or client id, a name that is invalid or
/// taken, the offset, the consumer group id, the username; other errors
/// blame no field.
pub proof fn law_error_field_by_kind(kind: IggyErrorKind)
    ensures
        (kind is StreamIdNotFound || kind is InvalidStreamId) ==> spec_error_field(kind) == Some(
            "stream_id"@,
        ),
        (kind is TopicIdNotFound || kind is InvalidTopicId) ==> spec_error_field(kind) == Some("topic_id"@),
        kind is PartitionNotFound ==> spec_error_field(kind) == Some("partition_id"@),
        kind is SegmentNotFound ==> spec_error_field(kind) == Some("segment_id"@),
        kind is ClientNotFound ==> spec_error_field(kind) == Some("client_id"@),
        (kind is InvalidStreamName || kind is StreamNameAlreadyExists || kind is InvalidTopicName
            || kind is TopicNameAlreadyExists || kind is ConsumerGroupNameAlreadyExists
            || kind is PersonalAccessTokenAlreadyExists) ==> spec_error_field(kind) == Some("name"@),
        kind is InvalidOffset ==> spec_error_field(kind) == Some("offset"@),
        kind is InvalidConsumerGroupId ==> spec_error_field(kind) == Some("consumer_group_id"@),
        kind is UserAlreadyExists ==> spec_error_field(kind) == Some("username"@),
        (rejects_credentials(kind) || kind is Unauthorized || kind is TransientNotCommitted
            || kind is CannotEstablishConnection || kind is Other || kind is ResourceNotFound
            || kind is ConsumerGroupIdNotFound || kind is ConsumerGroupNameNotFound
            || kind is ConsumerGroupMemberNotFound || kind is ConsumerOffsetNotFound) ==> spec_error_field(
            kind,
        ) is None,
{
}

/// The view number is stamped exactly on 2xx and 3xx responses off the
/// health probe `/ping`, and only while there is one to stamp.
pub proof fn law_view_header_only_on_success_or_redirect(status: u16, path: Seq<char>, view: Option<u32>)
    ensures
        spec_view_header(status, path, view) is Some <==> (200 <= status < 400 && path != "/ping"@
            && view is Some),
        spec_view_header(status, path, view) matches Some(v) ==> view == Some(v),
{
}

} // verus!
