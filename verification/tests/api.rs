use link_archive::api::{
    login_response, logout_response, render_error, ServerInner, FAILED_LOGIN_PAGE, SESSION_SECS,
};
use link_archive::crypto::{encode_password, Token};
use link_archive::form::login_form;
use link_archive::gate::{authorize, UserId};
use link_archive::identity::resolve;
use link_archive::links::{after_insert, import_plan};
use link_archive::models::{Time, User};
use link_archive::Error;

const NOW: u64 = 1_700_000_000;

fn server() -> ServerInner {
    ServerInner::new("archive.example".to_string(), "c2VydmVyIHNlY3JldA==").unwrap()
}

struct Store {
    users: Vec<(u32, String, String)>,
}

impl Store {
    fn new() -> Store {
        Store { users: Vec::new() }
    }

    fn create(&mut self, name: &str, password: &str) -> u32 {
        let id = self.users.len() as u32 + 1;
        self.users.push((id, name.to_string(), encode_password(password.as_bytes()).unwrap()));
        id
    }

    fn user(&self, row: &(u32, String, String)) -> User {
        User {
            id: row.0,
            name: row.1.clone(),
            password: row.2.clone(),
            token_version: 0,
            created: Time { unix_secs: 1614834367 },
            deleted: None,
        }
    }

    fn by_name(&self, name: &str) -> Result<User, Error> {
        match self.users.iter().find(|u| u.1 == name) {
            Some(row) => Ok(self.user(row)),
            None => Err(Error::UserNameNotFound(name.to_string())),
        }
    }

    fn by_id(&self, id: u32) -> Result<User, Error> {
        match self.users.iter().find(|u| u.0 == id) {
            Some(row) => Ok(self.user(row)),
            None => Err(Error::UserIdNotFound(id)),
        }
    }
}

fn login(store: &Store, body: &[u8], now: u64) -> Result<String, Error> {
    let form = login_form(body)?;
    server().login_at(store.by_name(&form.username), form.password.as_bytes(), now)
}

fn cookie_of(set_cookie: &str) -> Vec<String> {
    vec![set_cookie.split(';').next().unwrap().to_string()]
}

fn links_request(store: &Store, headers: &[String], target: &str, now: u64) -> Result<u32, Error> {
    let target = UserId::from_str(target)?;
    let id = server().authenticate_at(headers, now)?;
    let who = resolve(store.by_id(id))?;
    authorize(&who, &target)
}

#[test]
fn server_secret_is_base64() {
    let s = server();
    assert_eq!(s.server_name, "archive.example");
    assert_eq!(s.token_secret, b"server secret");
    assert!(matches!(ServerInner::new("x".to_string(), "not base64!"), Err(Error::Internal)));
    assert_eq!(ServerInner::new("x".to_string(), "").unwrap().token_secret, b"");
}

#[test]
fn session_lasts_thirty_days() {
    assert_eq!(SESSION_SECS, 60 * 60 * 24 * 30);
}

#[test]
fn scenario_login_then_own_links() {
    let mut store = Store::new();
    let alice = store.create("alice", "pw1");
    let token = login(&store, b"username=alice&password=pw1", NOW).unwrap();
    let response = login_response(&token);
    assert_eq!(response.status, 303);
    assert_eq!(response.location.as_deref(), Some("/api/users/self/links"));
    assert_eq!(response.body, "redirecting");
    let set_cookie = response.set_cookie.unwrap();
    assert_eq!(set_cookie, format!("ear7h-token={}; HttpOnly; SameSite=Strict; Path=/", token));

    let headers = cookie_of(&set_cookie);
    assert!(matches!(links_request(&store, &headers, "self", NOW + 5), Ok(id) if id == alice));
    assert!(matches!(links_request(&store, &headers, "1", NOW + 5), Ok(id) if id == alice));
    assert!(matches!(links_request(&store, &[set_cookie], "self", NOW + 5), Ok(id) if id == alice));

    let claim = Token::validate_at(&token, b"server secret", "archive.example", NOW).unwrap();
    assert_eq!(claim.sub, "1");
    assert_eq!(claim.iss, "archive.example");
    assert_eq!(claim.aud, "archive.example");
    assert_eq!(claim.iat, NOW);
    assert_eq!(claim.exp, NOW + 2592000);
}

#[test]
fn scenario_wrong_password() {
    let mut store = Store::new();
    store.create("alice", "pw1");
    let err = login(&store, b"username=alice&password=wrongpw", NOW).unwrap_err();
    assert!(matches!(err, Error::FailedLogin));
    let response = render_error(err);
    assert_eq!(response.status, 401);
    assert_eq!(response.set_cookie, None);
    assert_eq!(response.location, None);
    assert_eq!(response.body, FAILED_LOGIN_PAGE);
}

#[test]
fn scenario_unknown_user_looks_the_same() {
    let mut store = Store::new();
    store.create("alice", "pw1");
    let err = login(&store, b"username=mallory&password=pw1", NOW).unwrap_err();
    assert!(matches!(err, Error::FailedLogin));
    assert!(matches!(login(&store, b"username=alice", NOW), Err(Error::BadRequest)));
}

#[test]
fn scenario_other_users_links() {
    let mut store = Store::new();
    store.create("alice", "pw1");
    let bob = store.create("bob", "pw2");
    let token = login(&store, b"username=alice&password=pw1", NOW).unwrap();
    let headers = cookie_of(&login_response(&token).set_cookie.unwrap());
    let err = links_request(&store, &headers, &bob.to_string(), NOW + 5).unwrap_err();
    assert!(matches!(err, Error::Unauthorized));
    let response = render_error(err);
    assert_eq!(response.status, 403);
    let target = UserId::from_str(&bob.to_string()).unwrap();
    assert!(matches!(server().authorize_at(&headers, &target, NOW + 5), Err(Error::Unauthorized)));
    assert!(matches!(server().authorize_at(&headers, &UserId(None), NOW + 5), Ok(1)));
}

#[test]
fn scenario_expired_token() {
    let mut store = Store::new();
    store.create("alice", "pw1");
    let token = login(&store, b"username=alice&password=pw1", NOW).unwrap();
    let headers = cookie_of(&login_response(&token).set_cookie.unwrap());
    let expired = links_request(&store, &headers, "self", NOW + SESSION_SECS).unwrap_err();
    assert!(matches!(expired, Error::FailedLogin));
    let missing = links_request(&store, &[], "self", NOW).unwrap_err();
    assert!(matches!(missing, Error::FailedLogin));
    let a = render_error(expired);
    let b = render_error(missing);
    assert_eq!(a.status, 401);
    assert_eq!(b.status, 401);
    assert_eq!(a.body, b.body);
    assert!(matches!(links_request(&store, &headers, "self", NOW + SESSION_SECS - 1), Ok(1)));
}

#[test]
fn scenario_invalid_link_stops_the_import() {
    let plan = import_plan("not a url\nhttp://ok.example");
    let mut stored: Vec<String> = Vec::new();
    for url in &plan.urls {
        after_insert(Ok(())).unwrap();
        stored.push(url.clone());
    }
    assert!(stored.is_empty());
    let err = plan.finish().unwrap_err();
    assert!(matches!(&err, Error::InvalidUrl(line) if line == "not a url"));
    let response = render_error(err);
    assert_eq!(response.status, 400);
    assert_eq!(response.body, "invalid url: not a url");

    let again = import_plan("http://ok.example\nhttp://ok.example");
    assert_eq!(again.urls, vec!["http://ok.example/", "http://ok.example/"]);
    assert!(matches!(after_insert(Ok(())), Ok(())));
    assert!(matches!(after_insert(Err(Error::DuplicateUrl("http://ok.example/".to_string()))), Ok(())));
    assert!(matches!(again.finish(), Ok(())));
}

#[test]
fn authenticate_fails_closed() {
    let s = server();
    let headers = |v: &str| vec![v.to_string()];
    assert!(matches!(s.authenticate_at(&[], NOW), Err(Error::FailedLogin)));
    assert!(matches!(s.authenticate_at(&headers("ear7h-token=garbage"), NOW), Err(Error::FailedLogin)));
    let who = |iss: &str, sub: &str| Token {
        iss: iss.to_string(),
        aud: iss.to_string(),
        sub: sub.to_string(),
        version: 0,
    };
    let by_name = who("archive.example", "alice").issue_at(b"server secret", NOW, 60).unwrap();
    assert!(matches!(s.authenticate_at(&headers(&format!("ear7h-token={}", by_name)), NOW), Err(Error::FailedLogin)));
    let other_issuer = who("elsewhere", "1").issue_at(b"server secret", NOW, 60).unwrap();
    assert!(matches!(s.authenticate_at(&headers(&format!("ear7h-token={}", other_issuer)), NOW), Err(Error::FailedLogin)));
    let other_secret = who("archive.example", "1").issue_at(b"another", NOW, 60).unwrap();
    assert!(matches!(s.authenticate_at(&headers(&format!("ear7h-token={}", other_secret)), NOW), Err(Error::FailedLogin)));
    let good = who("archive.example", "1").issue_at(b"server secret", NOW, 60).unwrap();
    assert!(matches!(s.authenticate_at(&headers(&format!("a=b; ear7h-token={}", good)), NOW), Ok(1)));
    assert!(matches!(s.authenticate_at(&headers(&format!("ear7h-token={},x", good)), NOW), Err(Error::FailedLogin)));
    assert!(matches!(s.authenticate(&headers(&format!("ear7h-token={}", good))), Err(Error::FailedLogin)));
}

#[test]
fn login_and_authenticate_now() {
    let mut store = Store::new();
    store.create("alice", "pw1");
    let token = server().login(store.by_name("alice"), b"pw1").unwrap();
    let headers = vec![format!("ear7h-token={}", token)];
    assert!(matches!(server().authenticate(&headers), Ok(1)));
    assert!(matches!(server().authorize(&headers, &UserId(Some(1))), Ok(1)));
    assert!(matches!(server().authorize(&headers, &UserId(Some(2))), Err(Error::Unauthorized)));
}

#[test]
fn login_of_deleted_user_or_corrupt_hash() {
    let s = server();
    let user = |password: &str, deleted: Option<Time>| User {
        id: 1,
        name: "alice".to_string(),
        password: password.to_string(),
        token_version: 0,
        created: Time { unix_secs: 0 },
        deleted,
    };
    let hash = encode_password(b"pw1").unwrap();
    assert!(matches!(s.login_at(Ok(user(&hash, Some(Time { unix_secs: 5 }))), b"pw1", NOW), Err(Error::FailedLogin)));
    assert!(matches!(s.login_at(Ok(user("corrupt", None)), b"pw1", NOW), Err(Error::CredentialFormat)));
    assert!(matches!(s.login_at(Err(Error::Internal), b"pw1", NOW), Err(Error::Internal)));
    assert!(matches!(s.login_at(Err(Error::UserIdNotFound(1)), b"pw1", NOW), Err(Error::FailedLogin)));
    assert!(matches!(s.login_at(Ok(user(&hash, None)), b"pw1", u64::MAX), Err(Error::TokenDurationTooBig)));
    assert!(s.login_at(Ok(user(&hash, None)), b"pw1", NOW).is_ok());
}

#[test]
fn logout_clears_the_cookie() {
    let response = logout_response();
    assert_eq!(response.status, 303);
    assert_eq!(response.location.as_deref(), Some("/api/login"));
    assert_eq!(response.set_cookie.as_deref(), Some("ear7h-token=; HttpOnly; SameSite=Strict; Path=/; Max-Age=0"));
}

#[test]
fn error_pages() {
    let page = |e: Error| {
        let r = render_error(e);
        assert_eq!(r.location, None);
        assert_eq!(r.set_cookie, None);
        (r.status, r.body)
    };
    assert_eq!(page(Error::InvalidUrl("x y".to_string())), (400, "invalid url: x y".to_string()));
    assert_eq!(page(Error::DuplicateUrl("http://a/".to_string())), (409, "duplicate url: http://a/".to_string()));
    assert_eq!(page(Error::RouteNotFound), (404, "route not found".to_string()));
    assert_eq!(page(Error::FailedLogin), (401, FAILED_LOGIN_PAGE.to_string()));
    assert_eq!(page(Error::Unauthorized), (403, "unauthorized".to_string()));
    for e in [
        Error::DuplicateName("alice".to_string()),
        Error::TokenDurationTooBig,
        Error::UserNameNotFound("alice".to_string()),
        Error::UserIdNotFound(1),
        Error::BadRequest,
        Error::Internal,
        Error::CredentialFormat,
        Error::BadSignature,
        Error::Expired,
        Error::IssuerMismatch,
    ] {
        assert_eq!(page(e), (500, "internal server error".to_string()));
    }
}
