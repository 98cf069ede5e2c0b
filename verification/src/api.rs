//! Decisions of the HTTP API in front of the driver: its settings, who may
//! call the protected routes, and what each route answers.

use vstd::prelude::*;
use crate::auth::LoginOutcome;
use crate::model::{NodeInfo, NodeInfoView};
use crate::text::{parse_u16, parse_u16_spec, str_equal};

verus! {

/// The host the API listens on when none is configured.
pub fn default_host() -> (res: String)
    ensures
        res@ == "127.0.0.1"@,
{
    String::from_str("127.0.0.1")
}

/// The port the API listens on when none is configured.
pub fn default_port() -> (res: u16)
    ensures
        res == 8080,
{
    8080
}

/// Settings of the API: the argon2 hash of its password, and where it
/// listens.
#[derive(Debug, Clone, PartialEq, Eq)]
pub struct ApiConfig {
    pub password_hash: String,
    pub host: String,
    pub port: u16,
}

impl ApiConfig {
    /// The settings used when none are configured: no password, the default
    /// host and port.
    pub fn fallback() -> (res: ApiConfig)
        ensures
            res.password_hash@ == ""@,
            res.host@ == "127.0.0.1"@,
            res.port == 8080,
    {
        ApiConfig { password_hash: String::from_str(""), host: default_host(), port: default_port() }
    }

    /// Whether the API is left open, without a password.
    pub fn is_open(&self) -> (res: bool)
        ensures
            res == (self.password_hash@.len() == 0),
    {
        self.password_hash.as_str().is_empty()
    }
}

/// The port to listen on: the value of the `PORT` variable when it is set
/// and parses as a port number, else the configured one.
pub fn effective_port(env_port: Option<&str>, configured: u16) -> (res: u16)
    ensures
        res == (match env_port {
            Some(s) => match parse_u16_spec(s@) {
                Some(p) => p,
                None => configured,
            },
            None => configured,
        }),
{
    match env_port {
        Some(s) => match parse_u16(s) {
            Some(p) => p,
            None => configured,
        },
        None => configured,
    }
}

/// Whether `host` is the local loopback, named or numeric.
pub open spec fn is_local_host(host: Seq<char>) -> bool {
    host == "127.0.0.1"@ || host == "localhost"@
}

/// Whether the session cookie is sent over TLS only: whenever the API
/// listens on something other than the loopback.
pub fn cookie_secure(host: &str) -> (res: bool)
    ensures
        res == !is_local_host(host@),
{
    let is_local = str_equal(host, "127.0.0.1") || str_equal(host, "localhost");
    !is_local
}

#[verifier::external_type_specification]
#[verifier::external_body]
pub struct ExCookieKey(actix_web::cookie::Key);

/// Why a stored session key cannot be used.
#[derive(Debug, Clone, Copy, PartialEq, Eq, Structural)]
pub enum SessionKeyError {
    /// The key file does not hold exactly the 64 bytes of a master key.
    WrongLength,
}

/// Whether `data` is a session master key as it is written: 64 bytes.
pub open spec fn session_key_accepted(data: Seq<u8>) -> bool {
    data.len() == 64
}

/// The master bytes that a session key holds, which `Key::master` returns.
pub uninterp spec fn key_master(key: actix_web::cookie::Key) -> Seq<u8>;

/// `actix_web::cookie::Key::from(data)`: the key holds the first 64 bytes
/// as its master, as the source of `Key::try_from` shows. It panics on fewer
/// than 64 bytes, which `requires` leaves out.
#[verifier::external_body]
fn key_from_master(data: &[u8]) -> (res: actix_web::cookie::Key)
    requires
        data@.len() >= 64,
    ensures
        key_master(res) == data@.subrange(0, 64),
{
    actix_web::cookie::Key::from(data)
}

/// `actix_web::cookie::Key::generate()`: a fresh random key. The bytes are
/// random; the contract claims only the length of its master, which the key
/// type fixes at 64.
#[verifier::external_body]
fn generate_key() -> (res: actix_web::cookie::Key)
    ensures
        key_master(res).len() == 64,
{
    actix_web::cookie::Key::generate()
}

/// `key.master()`, copied into a vector.
#[verifier::external_body]
fn master_of(key: &actix_web::cookie::Key) -> (res: Vec<u8>)
    ensures
        res@ == key_master(*key),
{
    key.master().to_vec()
}

/// Checks a session key read from its file: it must be a 64-byte master key.
pub fn check_session_key(data: &[u8]) -> (res: Result<(), SessionKeyError>)
    ensures
        res is Ok <==> session_key_accepted(data@),
{
    if data.len() != 64 {
        Err(SessionKeyError::WrongLength)
    } else {
        Ok(())
    }
}

/// The session key made of the bytes of the key file, when they are a master
/// key.
pub fn load_session_key(data: &[u8]) -> (res: Result<actix_web::cookie::Key, SessionKeyError>)
    ensures
        res is Ok <==> session_key_accepted(data@),
        res matches Ok(k) ==> key_master(k) == data@,
{
    assert(data@.len() == 64 ==> data@.subrange(0, 64) =~= data@);
    match check_session_key(data) {
        Ok(()) => Ok(key_from_master(data)),
        Err(e) => Err(e),
    }
}

/// A new random session key, with the master bytes to write to the key
/// file; loading those bytes later gives a key with the same master.
pub fn new_session_key() -> (res: (actix_web::cookie::Key, Vec<u8>))
    ensures
        session_key_accepted(res.1@),
        res.1@ == key_master(res.0),
{
    let key = generate_key();
    let master = master_of(&key);
    (key, master)
}

/// A key generated once and written to the key file is loaded back with the
/// same master on every later start: the written bytes are accepted, and the
/// loaded key's master is those bytes.
pub proof fn law_generated_key_is_loaded_unchanged(key: actix_web::cookie::Key, written: Seq<u8>)
    requires
        written == key_master(key),
        session_key_accepted(written),
    ensures
        session_key_accepted(written),
        written.subrange(0, 64) == key_master(key),
{
    assert(written.subrange(0, 64) =~= written);
}

/// What the session says of the caller's login.
#[derive(Debug, Clone, Copy, PartialEq, Eq, Structural)]
pub enum SessionFlag {
    /// No login flag is stored.
    Absent,
    /// The stored login flag.
    Stored(bool),
    /// A value is stored but cannot be read as a flag.
    Unreadable,
}

/// HTTP status of a reply.
#[derive(Debug, Clone, Copy, PartialEq, Eq, Structural)]
pub enum ReplyStatus {
    Success,
    Unauthorized,
    InternalServerError,
}

/// Body of a reply; each JSON variant is one object.
#[derive(Debug, Clone, PartialEq, Eq)]
pub enum ReplyBody {
    /// No body.
    Empty,
    /// `{"status": ..}`.
    Status(String),
    /// `{"error": ..}`.
    Error(String),
    /// The node's identity as `{"alias", "identity_pubkey"}`.
    Info(NodeInfo),
    /// `{"bolt11": ..}`.
    Invoice(String),
    /// A plain-text message.
    Text(String),
}

/// `ReplyBody` with its strings as character sequences.
pub enum ReplyBodyView {
    Empty,
    Status(Seq<char>),
    Error(Seq<char>),
    Info(NodeInfoView),
    Invoice(Seq<char>),
    Text(Seq<char>),
}

impl View for ReplyBody {
    type V = ReplyBodyView;

    open spec fn view(&self) -> ReplyBodyView {
        match self {
            ReplyBody::Empty => ReplyBodyView::Empty,
            ReplyBody::Status(s) => ReplyBodyView::Status(s@),
            ReplyBody::Error(s) => ReplyBodyView::Error(s@),
            ReplyBody::Info(i) => ReplyBodyView::Info(i@),
            ReplyBody::Invoice(s) => ReplyBodyView::Invoice(s@),
            ReplyBody::Text(s) => ReplyBodyView::Text(s@),
        }
    }
}

/// A reply of the API.
#[derive(Debug, Clone, PartialEq, Eq)]
pub struct ApiReply {
    pub status: ReplyStatus,
    pub body: ReplyBody,
}

/// The reply to a caller who is not logged in.
pub open spec fn login_required_view() -> (ReplyStatus, ReplyBodyView) {
    (ReplyStatus::Unauthorized, ReplyBodyView::Error("login required"@))
}

/// Whether the session shows a completed login.
pub open spec fn is_logged_in(flag: SessionFlag) -> bool {
    flag == SessionFlag::Stored(true)
}

/// The guard of the protected routes: `None` lets the request through, else
/// the reply that refuses it.
pub fn require_login(flag: SessionFlag) -> (res: Option<ApiReply>)
    ensures
        res is None <==> is_logged_in(flag),
        res matches Some(r) ==> (r.status, r.body@) == login_required_view(),
{
    match flag {
        SessionFlag::Stored(true) => None,
        _ => Some(
            ApiReply {
                status: ReplyStatus::Unauthorized,
                body: ReplyBody::Error(String::from_str("login required")),
            },
        ),
    }
}

/// The login flag that a login attempt stores in the session, if any.
pub open spec fn login_session_flag(outcome: LoginOutcome) -> Option<SessionFlag> {
    if outcome == LoginOutcome::Accepted {
        Some(SessionFlag::Stored(true))
    } else {
        None
    }
}

/// The reply to a login attempt, and the login flag to store in the session
/// when there is one to store.
pub fn login_reply(outcome: LoginOutcome) -> (res: (ApiReply, Option<SessionFlag>))
    ensures
        res.1 == login_session_flag(outcome),
        outcome == LoginOutcome::HashInvalid ==> res.0.status == ReplyStatus::InternalServerError
            && res.0.body@ == ReplyBodyView::Empty && res.1 is None,
        outcome == LoginOutcome::Accepted ==> res.0.status == ReplyStatus::Success && res.0.body@
            == ReplyBodyView::Status("success"@) && res.1 == Some(SessionFlag::Stored(true)),
        outcome == LoginOutcome::Rejected ==> res.0.status == ReplyStatus::Unauthorized
            && res.0.body@ == ReplyBodyView::Error("invalid password"@) && res.1 is None,
{
    match outcome {
        LoginOutcome::HashInvalid => (
            ApiReply { status: ReplyStatus::InternalServerError, body: ReplyBody::Empty },
            None,
        ),
        LoginOutcome::Accepted => (
            ApiReply {
                status: ReplyStatus::Success,
                body: ReplyBody::Status(String::from_str("success")),
            },
            Some(SessionFlag::Stored(true)),
        ),
        LoginOutcome::Rejected => (
            ApiReply {
                status: ReplyStatus::Unauthorized,
                body: ReplyBody::Error(String::from_str("invalid password")),
            },
            None,
        ),
    }
}

/// The reply to a logout, after the session is purged.
pub fn logout_reply() -> (res: ApiReply)
    ensures
        res.status == ReplyStatus::Success,
        res.body@ == ReplyBodyView::Status("logged out"@),
{
    ApiReply { status: ReplyStatus::Success, body: ReplyBody::Status(String::from_str("logged out")) }
}

/// The reply carrying the node's identity, or the driver's error message.
pub fn info_reply(result: Result<NodeInfo, String>) -> (res: ApiReply)
    ensures
        match result {
            Ok(info) => res.status == ReplyStatus::Success && res.body@ == ReplyBodyView::Info(info@),
            Err(msg) => res.status == ReplyStatus::InternalServerError && res.body@
                == ReplyBodyView::Text(msg@),
        },
{
    match result {
        Ok(info) => ApiReply { status: ReplyStatus::Success, body: ReplyBody::Info(info) },
        Err(msg) => ApiReply { status: ReplyStatus::InternalServerError, body: ReplyBody::Text(msg) },
    }
}

/// The reply carrying a new invoice's payment request, or the driver's error
/// message.
pub fn invoice_reply(result: Result<String, String>) -> (res: ApiReply)
    ensures
        match result {
            Ok(bolt11) => res.status == ReplyStatus::Success && res.body@ == ReplyBodyView::Invoice(
                bolt11@,
            ),
            Err(msg) => res.status == ReplyStatus::InternalServerError && res.body@
                == ReplyBodyView::Text(msg@),
        },
{
    match result {
        Ok(bolt11) => ApiReply { status: ReplyStatus::Success, body: ReplyBody::Invoice(bolt11) },
        Err(msg) => ApiReply { status: ReplyStatus::InternalServerError, body: ReplyBody::Text(msg) },
    }
}

/// A login stores a flag exactly when it is accepted, and the flag it
/// stores lets later requests through the guard of the protected routes.
pub proof fn law_accepted_login_opens_protected_routes(outcome: LoginOutcome)
    ensures
        login_session_flag(outcome) is Some <==> outcome == LoginOutcome::Accepted,
        login_session_flag(outcome) matches Some(f) ==> is_logged_in(f),
{
}

} // verus!
