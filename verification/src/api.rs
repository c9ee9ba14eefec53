//! What the server decides for a request: who the caller is, whether a login
//! succeeds, and what a failure looks like to the client. Reading requests,
//! asking the stores and sending responses is left to the program around
//! this library.

use vstd::prelude::*;
use vstd::string::*;
use crate::crypto::{
    jwt_opened, password_check, unix_now, validated, verify_password, Token, TokenView,
};
use crate::gate::{authorized, UserId};
use crate::decimal::{decimal_digits, format_u32};
use crate::error::Error;
use crate::identity::{is_missing, subject_id, subject_id_spec};
use crate::models::User;
use crate::session::{cookie_text, decode, encode, clear, find_in_headers, COOKIE_NAME};
use crate::text::{text_result_view, text_view};

verus! {

/// How long a session lasts: 30 days, in seconds.
pub const SESSION_SECS: u64 = 2592000;

/// Where a browser is sent after a login.
pub const LINKS_PATH: &'static str = "/api/users/self/links";

/// Where a browser is sent after a logout.
pub const LOGIN_PATH: &'static str = "/api/login";

/// The page shown for every failed login, whatever made it fail.
pub const FAILED_LOGIN_PAGE: &'static str =
    "<!DOCTYPE html>\n<html>\n<head><title>login failed</title></head>\n<body>\n<p>login failed</p>\n<p><a href=\"/api/login\">try again</a></p>\n</body>\n</html>\n";

/// What the server holds for its whole life: its name, which is the issuer
/// and the audience of its tokens, and the secret it signs them with.
pub struct ServerInner {
    pub server_name: String,
    pub token_secret: Vec<u8>,
}

/// A response, as far as this library decides it.
pub struct Response {
    pub status: u16,
    /// The `Location` header, if the response redirects.
    pub location: Option<String>,
    /// The `Set-Cookie` header, if the response sets or clears the session.
    pub set_cookie: Option<String>,
    pub body: String,
}

/// A `Response` as plain values.
pub struct ResponseView {
    pub status: u16,
    pub location: Option<Seq<char>>,
    pub set_cookie: Option<Seq<char>>,
    pub body: Seq<char>,
}

impl View for Response {
    type V = ResponseView;

    open spec fn view(&self) -> ResponseView {
        ResponseView {
            status: self.status,
            location: text_view(self.location),
            set_cookie: text_view(self.set_cookie),
            body: self.body@,
        }
    }
}

/// The texts of the headers of a request.
pub open spec fn header_texts(headers: Seq<String>) -> Seq<Seq<char>> {
    headers.map_values(|h: String| h@)
}

/// Who a request comes from, at the instant `now`: the user id in the
/// subject of the token that the session cookie carries, if the token is
/// valid for this server. `FailedLogin` where there is no session cookie,
/// where the token is not valid, whatever the reason, and where its subject
/// is no user id.
pub open spec fn authenticated(
    headers: Seq<Seq<char>>,
    secret: Seq<u8>,
    server_name: Seq<char>,
    now: u64,
) -> Result<u32, Error> {
    match find_in_headers(headers, COOKIE_NAME@) {
        None => Err(Error::FailedLogin),
        Some(token) => match validated(jwt_opened(token, secret), server_name, now) {
            Err(_) => Err(Error::FailedLogin),
            Ok(claim) => subject_id_spec(claim.sub),
        },
    }
}

/// The token that a login gets at the instant `now`, given the store's
/// answer to the lookup of the user name: a token for the user's id and
/// token version, issued by this server for itself, valid for
/// `SESSION_SECS`. `FailedLogin` where the store knows no such user, where
/// the user is deleted and where the password does not match; any other
/// error of the store, of the password check or of issuing as it is.
pub open spec fn login_outcome(
    server_name: Seq<char>,
    secret: Seq<u8>,
    found: Result<User, Error>,
    password: Seq<u8>,
    now: u64,
) -> Result<Seq<char>, Error> {
    match found {
        Err(e) => if is_missing(e) {
            Err(Error::FailedLogin)
        } else {
            Err(e)
        },
        Ok(user) => if user.deleted is Some {
            Err(Error::FailedLogin)
        } else {
            match password_check(user.password@, password) {
                Err(e) => Err(e),
                Ok(false) => Err(Error::FailedLogin),
                Ok(true) => Token::issued(
                    TokenView {
                        iss: server_name,
                        aud: server_name,
                        sub: decimal_digits(user.id as nat),
                        version: user.token_version,
                    },
                    secret,
                    now,
                    SESSION_SECS,
                ),
            }
        },
    }
}

impl ServerInner {
    /// Authenticates a request by the `Cookie` headers it presents, at the
    /// instant `now`: see `authenticated`.
    pub fn authenticate_at(&self, headers: &[String], now: u64) -> (r: Result<u32, Error>)
        ensures
            r == authenticated(header_texts(headers@), self.token_secret@, self.server_name@, now),
            r matches Err(e) ==> e == Error::FailedLogin,
    {
        let token = match decode(headers) {
            Some(token) => token,
            None => {
                return Err(Error::FailedLogin);
            },
        };
        match Token::validate_at(
            token.as_str(),
            self.token_secret.as_slice(),
            self.server_name.as_str(),
            now,
        ) {
            Ok(claim) => subject_id(claim.sub.as_str()),
            Err(_) => Err(Error::FailedLogin),
        }
    }

    /// Decides a login at the instant `now`: see `login_outcome`.
    pub fn login_at(&self, found: Result<User, Error>, password: &[u8], now: u64) -> (r: Result<
        String,
        Error,
    >)
        ensures
            text_result_view(r) == login_outcome(
                self.server_name@,
                self.token_secret@,
                found,
                password@,
                now,
            ),
    {
        let user = match found {
            Ok(user) => user,
            Err(Error::UserIdNotFound(_)) => {
                return Err(Error::FailedLogin);
            },
            Err(Error::UserNameNotFound(_)) => {
                return Err(Error::FailedLogin);
            },
            Err(e) => {
                return Err(e);
            },
        };
        if user.deleted.is_some() {
            return Err(Error::FailedLogin);
        }
        match verify_password(user.password.as_str(), password) {
            Err(e) => {
                return Err(e);
            },
            Ok(false) => {
                return Err(Error::FailedLogin);
            },
            Ok(true) => {},
        }
        let token = Token {
            iss: self.server_name.clone(),
            aud: self.server_name.clone(),
            sub: format_u32(user.id),
            version: user.token_version,
        };
        token.issue_at(self.token_secret.as_slice(), now, SESSION_SECS)
    }
}

/// The response to a login that succeeded: a redirect to the caller's own
/// links that sets the session cookie.
pub open spec fn login_page(token: Seq<char>) -> ResponseView {
    ResponseView {
        status: 303,
        location: Some(LINKS_PATH@),
        set_cookie: Some(cookie_text(COOKIE_NAME@, token, None)),
        body: "redirecting"@,
    }
}

/// The response to a logout: a redirect to the login page that clears the
/// session cookie.
pub open spec fn logout_page() -> ResponseView {
    ResponseView {
        status: 303,
        location: Some(LOGIN_PATH@),
        set_cookie: Some(cookie_text(COOKIE_NAME@, Seq::<char>::empty(), Some(0i64))),
        body: "redirecting"@,
    }
}

/// The status that a failed request is answered with.
pub open spec fn error_status(e: Error) -> u16 {
    match e {
        Error::InvalidUrl(_) => 400,
        Error::DuplicateUrl(_) => 409,
        Error::RouteNotFound => 404,
        Error::FailedLogin => 401,
        Error::Unauthorized => 403,
        _ => 500,
    }
}

/// The body that a failed request is answered with. Only a rejected or
/// duplicate URL is named to the client; a failed login always shows the same
/// page; what went wrong inside the server is never told.
pub open spec fn error_body(e: Error) -> Seq<char> {
    match e {
        Error::InvalidUrl(s) => "invalid url: "@ + s@,
        Error::DuplicateUrl(s) => "duplicate url: "@ + s@,
        Error::RouteNotFound => "route not found"@,
        Error::FailedLogin => FAILED_LOGIN_PAGE@,
        Error::Unauthorized => "unauthorized"@,
        _ => "internal server error"@,
    }
}

/// The response to a request that failed with `e`.
pub open spec fn error_page(e: Error) -> ResponseView {
    ResponseView { status: error_status(e), location: None, set_cookie: None, body: error_body(e) }
}

/// Builds the response to a login that succeeded with `token`.
pub fn login_response(token: &str) -> (r: Response)
    ensures
        r@ == login_page(token@),
{
    Response {
        status: 303,
        location: Some(String::from_str(LINKS_PATH)),
        set_cookie: Some(encode(token)),
        body: String::from_str("redirecting"),
    }
}

/// Builds the response to a logout.
pub fn logout_response() -> (r: Response)
    ensures
        r@ == logout_page(),
{
    Response {
        status: 303,
        location: Some(String::from_str(LOGIN_PATH)),
        set_cookie: Some(clear()),
        body: String::from_str("redirecting"),
    }
}

/// Builds the response to a request that failed with `err`.
pub fn render_error(err: Error) -> (r: Response)
    ensures
        r@ == error_page(err),
{
    let status: u16;
    let body: String;
    match err {
        Error::InvalidUrl(s) => {
            status = 400;
            body = String::from_str("invalid url: ").concat(s.as_str());
        },
        Error::DuplicateUrl(s) => {
            status = 409;
            body = String::from_str("duplicate url: ").concat(s.as_str());
        },
        Error::RouteNotFound => {
            status = 404;
            body = String::from_str("route not found");
        },
        Error::FailedLogin => {
            status = 401;
            body = String::from_str(FAILED_LOGIN_PAGE);
        },
        Error::Unauthorized => {
            status = 403;
            body = String::from_str("unauthorized");
        },
        _ => {
            status = 500;
            body = String::from_str("internal server error");
        },
    }
    Response { status, location: None, set_cookie: None, body }
}

/// The bytes that `base64::decode` reads from a text in the standard
/// alphabet; `None` where it reports an error.
pub uninterp spec fn base64_decoded(text: Seq<char>) -> Option<Seq<u8>>;

/// Optional bytes as plain values.
pub open spec fn bytes_view(r: Option<Vec<u8>>) -> Option<Seq<u8>> {
    match r {
        Some(bytes) => Some(bytes@),
        None => None,
    }
}

/// Calls `base64::decode`. The contract names the outcome and claims nothing
/// else of it.
#[verifier::external_body]
fn decode_base64(text: &str) -> (r: Option<Vec<u8>>)
    ensures
        bytes_view(r) == base64_decoded(text@),
{
    base64::decode(text).ok()
}

/// Who may act on the user that `target` names, for a request that is
/// authenticated as `caller`: the caller, on itself only.
pub open spec fn owner(caller: Result<u32, Error>, target: Option<u32>) -> Result<u32, Error> {
    match caller {
        Ok(id) => authorized(id, target),
        Err(e) => Err(e),
    }
}

impl ServerInner {
    /// Sets the server up from its configuration: its name, and its secret
    /// as the configuration writes it, in base64. `Internal` where the
    /// secret is no base64.
    pub fn new(server_name: String, token_secret: &str) -> (r: Result<ServerInner, Error>)
        ensures
            match r {
                Ok(server) => server.server_name == server_name && base64_decoded(token_secret@)
                    == Some(server.token_secret@),
                Err(e) => e == Error::Internal && base64_decoded(token_secret@) is None,
            },
    {
        match decode_base64(token_secret) {
            Some(secret) => Ok(ServerInner { server_name, token_secret: secret }),
            None => Err(Error::Internal),
        }
    }

    /// Authenticates a request and checks that it may act on the user that
    /// `target` names, at the instant `now`: `FailedLogin` for a caller that
    /// is not authenticated, `Unauthorized` for a caller that names another
    /// user, else the caller's id.
    pub fn authorize_at(&self, headers: &[String], target: &UserId, now: u64) -> (r: Result<
        u32,
        Error,
    >)
        ensures
            r == owner(
                authenticated(
                    header_texts(headers@),
                    self.token_secret@,
                    self.server_name@,
                    now,
                ),
                target.0,
            ),
    {
        match self.authenticate_at(headers, now) {
            Ok(id) => match target.compare(id) {
                Some(id) => Ok(id),
                None => Err(Error::Unauthorized),
            },
            Err(e) => Err(e),
        }
    }

    /// Authenticates a request now. Whatever the clock says, the answer is
    /// that of `authenticate_at` at some instant, or `Internal` where the
    /// clock could not be read.
    pub fn authenticate(&self, headers: &[String]) -> (r: Result<u32, Error>)
        ensures
            r == Err::<u32, Error>(Error::Internal) || exists|now: u64|
                r == #[trigger] authenticated(
                    header_texts(headers@),
                    self.token_secret@,
                    self.server_name@,
                    now,
                ),
    {
        match unix_now() {
            Some(now) => self.authenticate_at(headers, now),
            None => Err(Error::Internal),
        }
    }

    /// Authenticates and authorizes a request now. Whatever the clock says,
    /// the answer is that of `authorize_at` at some instant, or `Internal`
    /// where the clock could not be read.
    pub fn authorize(&self, headers: &[String], target: &UserId) -> (r: Result<u32, Error>)
        ensures
            r == Err::<u32, Error>(Error::Internal) || exists|now: u64|
                r == owner(
                    #[trigger] authenticated(
                        header_texts(headers@),
                        self.token_secret@,
                        self.server_name@,
                        now,
                    ),
                    target.0,
                ),
    {
        match unix_now() {
            Some(now) => self.authorize_at(headers, target, now),
            None => Err(Error::Internal),
        }
    }

    /// Decides a login now. Whatever the clock says, the answer is that of
    /// `login_at` at some instant, or `Internal` where the clock could not be
    /// read.
    pub fn login(&self, found: Result<User, Error>, password: &[u8]) -> (r: Result<String, Error>)
        ensures
            r == Err::<String, Error>(Error::Internal) || exists|now: u64|
                text_result_view(r) == #[trigger] login_outcome(
                    self.server_name@,
                    self.token_secret@,
                    found,
                    password@,
                    now,
                ),
    {
        match unix_now() {
            Some(now) => self.login_at(found, password, now),
            None => Err(Error::Internal),
        }
    }
}

} // verus!
