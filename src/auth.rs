use vstd::prelude::*;
use vstd::string::*;

use crate::url::{normalize_server_url, normalized};

verus! {

/// What the server answered to a login or to a 2FA verification.
pub struct LoginResponse {
    pub success: bool,
    pub token: Option<String>,
    pub requires2fa: Option<bool>,
    pub session_id: Option<String>,
    pub message: Option<String>,
}

/// What the server answered to a registration.
pub struct RegisterResponse {
    pub success: bool,
    pub message: Option<String>,
}

/// The outcome of a login step, as handed to the caller.
pub struct LoginResponseWrapper {
    pub success: bool,
    pub token: Option<String>,
    pub requires2fa: Option<bool>,
    pub session_id: Option<String>,
    pub message: Option<String>,
}

/// The outcome of a registration, as handed to the caller.
pub struct RegisterResponseWrapper {
    pub success: bool,
    pub message: Option<String>,
}

/// How a call to the server ended, as seen by the transport.
pub enum ServerReply<T> {
    /// No response arrived: DNS, connect, TLS or timeout failure.
    Unreachable,
    /// A response arrived, but its body did not decode into the expected shape.
    Malformed,
    /// A response arrived and decoded.
    Received(T),
}

/// A JSON POST: where it goes and the body's fields, in order, each a name
/// and a string value. A field that is not listed is absent from the body.
pub struct PostRequest {
    pub url: String,
    pub fields: Vec<(String, String)>,
}

pub open spec fn register_path() -> Seq<char> {
    "/api/register"@
}

pub open spec fn login_path() -> Seq<char> {
    "/api/login"@
}

pub open spec fn verify_login_path() -> Seq<char> {
    "/api/2fa/verify-login"@
}

pub open spec fn ping_path() -> Seq<char> {
    "/api/ping"@
}

pub open spec fn connect_failure_message() -> Seq<char> {
    "could not connect to server"@
}

pub open spec fn parse_failure_message() -> Seq<char> {
    "could not parse server response"@
}

pub open spec fn opt_view(o: Option<String>) -> Option<Seq<char>> {
    match o {
        Some(s) => Some(s@),
        None => None,
    }
}

/// The shape a login answer should have: one that asks for 2FA carries a
/// session id and no token, and a success that asks for no 2FA carries a token.
pub open spec fn login_fields_consistent(
    success: bool,
    token: Option<String>,
    requires2fa: Option<bool>,
    session_id: Option<String>,
) -> bool {
    &&& requires2fa == Some(true) ==> session_id is Some && token is None
    &&& success && requires2fa != Some(true) ==> token is Some
}

impl LoginResponse {
    pub open spec fn is_consistent(&self) -> bool {
        login_fields_consistent(self.success, self.token, self.requires2fa, self.session_id)
    }
}

impl LoginResponseWrapper {
    pub open spec fn is_consistent(&self) -> bool {
        login_fields_consistent(self.success, self.token, self.requires2fa, self.session_id)
    }
}

/// A login is the second, verifying step exactly when both the 2FA token
/// and the session id are there.
pub open spec fn is_verification_step(
    two_factor_token: Option<String>,
    session_id: Option<String>,
) -> bool {
    two_factor_token is Some && session_id is Some
}

/// The body of a registration.
pub open spec fn register_fields(username: Seq<char>, password: Seq<char>) -> Seq<
    (Seq<char>, Seq<char>),
> {
    seq![("username"@, username), ("password"@, password)]
}

/// The body of a primary login: the password goes, and the token goes when
/// there is one; without a token the body has no token field at all.
pub open spec fn primary_login_fields(
    username: Seq<char>,
    password: Seq<char>,
    two_factor_token: Option<Seq<char>>,
) -> Seq<(Seq<char>, Seq<char>)> {
    match two_factor_token {
        Some(t) => seq![("username"@, username), ("password"@, password), ("twoFactorToken"@, t)],
        None => seq![("username"@, username), ("password"@, password)],
    }
}

/// The body of a 2FA verification: session id and token, no password.
pub open spec fn verify_login_fields(
    username: Seq<char>,
    session_id: Seq<char>,
    two_factor_token: Seq<char>,
) -> Seq<(Seq<char>, Seq<char>)> {
    seq![
        ("username"@, username),
        ("sessionId"@, session_id),
        ("twoFactorToken"@, two_factor_token),
    ]
}

/// Phase selection: the password travels in a primary login body and never
/// in a verification body, whose fields are the user name, the session id
/// and the token.
pub proof fn lemma_password_only_in_primary_login(
    username: Seq<char>,
    password: Seq<char>,
    token: Option<Seq<char>>,
    session_id: Seq<char>,
    two_factor_token: Seq<char>,
)
    ensures
        primary_login_fields(username, password, token).contains(
            ("password"@, password),
        ),
        forall|i: int|
            0 <= i < verify_login_fields(username, session_id, two_factor_token).len()
                ==> #[trigger] verify_login_fields(username, session_id, two_factor_token)[i].0
                != "password"@,
{
    let p = primary_login_fields(username, password, token);
    assert(p[1] == ("password"@, password));
    reveal_strlit("password");
    reveal_strlit("username");
    reveal_strlit("sessionId");
    reveal_strlit("twoFactorToken");
    assert("username"@[0] != "password"@[0]);
    assert("sessionId"@.len() != "password"@.len());
    assert("twoFactorToken"@.len() != "password"@.len());
}

fn field(name: &str, value: String) -> (r: (String, String))
    ensures
        r.deep_view() == (name@, value@),
{
    (String::from_str(name), value)
}

/// The request that registers `username` with `password` on `server`.
pub fn register_request(server: &str, username: String, password: String) -> (r: PostRequest)
    ensures
        r.url@ == normalized(server@) + register_path(),
        r.fields.deep_view() == register_fields(username@, password@),
{
    let url = normalize_server_url(server).concat("/api/register");
    let ghost (u, p) = (username@, password@);
    let mut fields: Vec<(String, String)> = Vec::new();
    fields.push(field("username", username));
    fields.push(field("password", password));
    assert(fields.deep_view() =~= register_fields(u, p));
    PostRequest { url, fields }
}

/// The request for one login step. With both a 2FA token and a session id it
/// is the verification step, sent to the verify endpoint without the
/// password; otherwise it is the primary login, which sends the password and
/// the token, if one was given.
pub fn login_request(
    server: &str,
    username: String,
    password: String,
    two_factor_token: Option<String>,
    session_id: Option<String>,
) -> (r: PostRequest)
    ensures
        is_verification_step(two_factor_token, session_id) ==> {
            &&& r.url@ == normalized(server@) + verify_login_path()
            &&& r.fields.deep_view() == verify_login_fields(
                username@,
                session_id->0@,
                two_factor_token->0@,
            )
        },
        !is_verification_step(two_factor_token, session_id) ==> {
            &&& r.url@ == normalized(server@) + login_path()
            &&& r.fields.deep_view() == primary_login_fields(
                username@,
                password@,
                opt_view(two_factor_token),
            )
        },
{
    let base = normalize_server_url(server);
    let ghost u = username@;
    let mut fields: Vec<(String, String)> = Vec::new();
    match (two_factor_token, session_id) {
        (Some(token), Some(sid)) => {
            let ghost (t, s) = (token@, sid@);
            fields.push(field("username", username));
            fields.push(field("sessionId", sid));
            fields.push(field("twoFactorToken", token));
            assert(fields.deep_view() =~= verify_login_fields(u, s, t));
            PostRequest { url: base.concat("/api/2fa/verify-login"), fields }
        },
        (token, _) => {
            let ghost (p, t) = (password@, opt_view(token));
            fields.push(field("username", username));
            fields.push(field("password", password));
            if let Some(tok) = token {
                fields.push(field("twoFactorToken", tok));
            }
            assert(fields.deep_view() =~= primary_login_fields(u, p, t));
            PostRequest { url: base.concat("/api/login"), fields }
        },
    }
}

/// The URL of the health endpoint of `server`.
pub fn ping_url(server: &str) -> (r: String)
    ensures
        r@ == normalized(server@) + ping_path(),
{
    normalize_server_url(server).concat("/api/ping")
}

/// Whether a probe of the health endpoint found the server: it did when an
/// HTTP status came back and it is a 2xx one.
pub fn ping_succeeded(status: Option<u16>) -> (r: bool)
    ensures
        r == (status is Some && 200 <= status->0 <= 299),
{
    match status {
        Some(code) => 200 <= code && code <= 299,
        None => false,
    }
}

/// Maps how a registration call ended to its outcome: a failed transport or
/// an undecodable body gives `success == false` with a message saying which;
/// a decoded answer is passed on as it came.
pub fn register_outcome(reply: ServerReply<RegisterResponse>) -> (r: RegisterResponseWrapper)
    ensures
        match reply {
            ServerReply::Unreachable => !r.success && opt_view(r.message) == Some(
                connect_failure_message(),
            ),
            ServerReply::Malformed => !r.success && opt_view(r.message) == Some(
                parse_failure_message(),
            ),
            ServerReply::Received(resp) => r.success == resp.success && r.message == resp.message,
        },
{
    match reply {
        ServerReply::Unreachable => RegisterResponseWrapper {
            success: false,
            message: Some(String::from_str("could not connect to server")),
        },
        ServerReply::Malformed => RegisterResponseWrapper {
            success: false,
            message: Some(String::from_str("could not parse server response")),
        },
        ServerReply::Received(resp) => RegisterResponseWrapper {
            success: resp.success,
            message: resp.message,
        },
    }
}

/// Maps how a login step ended to its outcome: a failed transport or an
/// undecodable body gives `success == false`, no token, no 2FA flag, no
/// session id and a message saying which; a decoded answer is passed on
/// field for field.
pub fn login_outcome(reply: ServerReply<LoginResponse>) -> (r: LoginResponseWrapper)
    ensures
        match reply {
            ServerReply::Unreachable => {
                &&& !r.success
                &&& r.token is None
                &&& r.requires2fa is None
                &&& r.session_id is None
                &&& opt_view(r.message) == Some(connect_failure_message())
            },
            ServerReply::Malformed => {
                &&& !r.success
                &&& r.token is None
                &&& r.requires2fa is None
                &&& r.session_id is None
                &&& opt_view(r.message) == Some(parse_failure_message())
            },
            ServerReply::Received(resp) => {
                &&& r.success == resp.success
                &&& r.token == resp.token
                &&& r.requires2fa == resp.requires2fa
                &&& r.session_id == resp.session_id
                &&& r.message == resp.message
            },
        },
        r.is_consistent() == match reply {
            ServerReply::Received(resp) => resp.is_consistent(),
            _ => true,
        },
{
    match reply {
        ServerReply::Unreachable => LoginResponseWrapper {
            success: false,
            token: None,
            requires2fa: None,
            session_id: None,
            message: Some(String::from_str("could not connect to server")),
        },
        ServerReply::Malformed => LoginResponseWrapper {
            success: false,
            token: None,
            requires2fa: None,
            session_id: None,
            message: Some(String::from_str("could not parse server response")),
        },
        ServerReply::Received(resp) => LoginResponseWrapper {
            success: resp.success,
            token: resp.token,
            requires2fa: resp.requires2fa,
            session_id: resp.session_id,
            message: resp.message,
        },
    }
}

} // verus!
