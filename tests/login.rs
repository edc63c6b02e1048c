use mas_core::compat::{
    begin_password_login, complete_password_login, finish_password_login, issue_tokens,
    token_login, PasswordOutcome,
};
use mas_core::login::{
    login_flows, resolve_username, select_login, Credentials, Identifier, LoginMethod, LoginType,
    JsonRejection, MatrixError, RequestBody, ResponseBody, RouteError,
};
use mas_core::matrix::mock::{HomeserverConnection, ProvisionRequest};
use mas_core::matrix::{localpart, mxid};
use mas_core::rate_limit::{Limiter, PasswordCheckLimitedError, RequesterFingerprint};
use mas_core::repository::Repository;
use mas_core::tokens::{generate_device_id, TokenType};

const HOMESERVER: &str = "example.com";
const TTL_MS: i64 = 300_000;

struct Server {
    repo: Repository,
    homeserver: HomeserverConnection,
    limiter: Limiter,
    password_login_enabled: bool,
    now: i64,
}

impl Server {
    fn new() -> Self {
        Server {
            repo: Repository::new(),
            homeserver: HomeserverConnection::new(HOMESERVER.to_owned()),
            limiter: Limiter::new(3),
            password_login_enabled: true,
            now: 1_000_000,
        }
    }

    fn user_with_password(&mut self, username: &str, password: &str) -> u64 {
        let user = self.repo.add_user(username.to_owned(), format!("sub-{username}"), self.now).unwrap();
        self.repo.add_password(user.id, 1, format!("hash:{password}"), None, self.now).unwrap();
        self.homeserver.provision_user(&ProvisionRequest::new(username.to_owned(), user.sub.clone())).unwrap();
        user.id
    }

    /// Runs a login request through every phase, checking passwords against
    /// the stored test hash.
    fn post(&mut self, body: RequestBody) -> Result<ResponseBody, MatrixError> {
        self.login(body).map_err(|e| e.to_matrix_error())
    }

    fn login(&mut self, body: RequestBody) -> Result<ResponseBody, RouteError> {
        let requester = RequesterFingerprint { value: 7 };
        let (session, user) = match select_login(self.password_login_enabled, body.credentials)? {
            LoginMethod::Password { username, password } => {
                let challenge = begin_password_login(&self.repo, &mut self.limiter, HOMESERVER, requester, &username)?;
                let outcome = if challenge.password.hashed_password == format!("hash:{password}") {
                    PasswordOutcome::Match
                } else {
                    PasswordOutcome::Mismatch("mismatch".to_owned())
                };
                let user = finish_password_login(&mut self.repo, &mut self.limiter, requester, challenge, outcome, self.now)?;
                let device = generate_device_id();
                let provisioned = self
                    .homeserver
                    .upsert_device(&user.username, &device, None)
                    .map_err(|e| format!("{e:?}"));
                let session = complete_password_login(&mut self.repo, &user, device, provisioned, self.now)?;
                (session, user)
            }
            LoginMethod::Token { token } => token_login(&mut self.repo, self.now, &token)?,
        };
        issue_tokens(
            &mut self.repo,
            &session,
            &user,
            HOMESERVER,
            body.refresh_token,
            TTL_MS,
            None,
            TokenType::CompatAccessToken.generate(),
            TokenType::CompatRefreshToken.generate(),
            self.now,
        )
    }
}

fn password_body(user: &str, password: &str, refresh_token: bool) -> RequestBody {
    RequestBody {
        credentials: Credentials::Password {
            identifier: Some(Identifier::User { user: user.to_owned() }),
            user: None,
            password: password.to_owned(),
        },
        refresh_token,
    }
}

fn token_body(token: &str) -> RequestBody {
    RequestBody { credentials: Credentials::Token { token: token.to_owned() }, refresh_token: false }
}

fn error(errcode: &'static str, error: &'static str, status: u16) -> MatrixError {
    MatrixError { errcode, error, status }
}

#[test]
fn test_get_login() {
    let flows = login_flows(true);
    assert_eq!(flows.len(), 3);
    assert_eq!(flows[0], LoginType::Password);
    assert_eq!(flows[1], LoginType::Sso { identity_providers: vec![], delegated_oidc_compatibility: true });
    assert_eq!(flows[2], LoginType::Token);
}

#[test]
fn test_bad_body() {
    assert_eq!(
        RouteError::InvalidJsonBody(JsonRejection::MissingJsonContentType).to_matrix_error(),
        error("M_NOT_JSON", "Invalid Content-Type header: expected application/json", 400)
    );
    assert_eq!(
        RouteError::InvalidJsonBody(JsonRejection::JsonDataError).to_matrix_error(),
        error("M_BAD_JSON", "JSON fields are not valid", 400)
    );
    assert_eq!(
        RouteError::InvalidJsonBody(JsonRejection::JsonSyntaxError).to_matrix_error(),
        error("M_NOT_JSON", "Body is not a valid JSON document", 400)
    );
}

#[test]
fn test_password_disabled() {
    let flows = login_flows(false);
    assert_eq!(flows.len(), 2);
    assert_eq!(flows[0], LoginType::Sso { identity_providers: vec![], delegated_oidc_compatibility: true });
    assert_eq!(flows[1], LoginType::Token);

    let mut server = Server::new();
    server.password_login_enabled = false;
    server.user_with_password("alice", "password");
    let res = server.post(password_body("alice", "password", false));
    assert_eq!(res, Err(error("M_UNKNOWN", "Invalid login type", 400)));
}

#[test]
fn test_user_password_login() {
    let mut server = Server::new();
    server.user_with_password("alice", "password");

    // Without a refresh token.
    let body = server.post(password_body("alice", "password", false)).unwrap();
    assert!(body.access_token.starts_with("mct_"));
    assert_eq!(body.access_token.len(), 34);
    assert_eq!(body.device_id.as_ref().map(|d| d.len()), Some(10));
    assert_eq!(body.user_id, "@alice:example.com");
    assert_eq!(body.refresh_token, None);
    assert_eq!(body.expires_in_ms, None);

    // With a refresh token.
    let body = server.post(password_body("alice", "password", true)).unwrap();
    assert!(body.access_token.starts_with("mct_"));
    assert!(body.device_id.is_some());
    assert_eq!(body.user_id, "@alice:example.com");
    assert!(body.refresh_token.as_ref().unwrap().starts_with("mcr_"));
    assert_eq!(body.expires_in_ms, Some(300000));

    // With the deprecated 'user' property.
    let body = server
        .post(RequestBody {
            credentials: Credentials::Password { identifier: None, user: Some("alice".to_owned()), password: "password".to_owned() },
            refresh_token: false,
        })
        .unwrap();
    assert_eq!(body.user_id, "@alice:example.com");

    // Reset the rate limits.
    server.limiter.reset();

    // A wrong password.
    let wrong_password = server.post(password_body("alice", "wrongpassword", false));
    assert_eq!(wrong_password, Err(error("M_FORBIDDEN", "Invalid username/password", 403)));

    // A wrong username: the same error.
    let wrong_user = server.post(password_body("bob", "wrongpassword", false));
    assert_eq!(wrong_user, wrong_password);
}

#[test]
fn test_user_password_login_mxid() {
    let mut server = Server::new();
    server.user_with_password("alice", "password");

    let body = server.post(password_body("@alice:example.com", "password", false)).unwrap();
    assert_eq!(body.user_id, "@alice:example.com");

    let res = server.post(password_body("@alice:something.corp", "password", false));
    assert_eq!(res, Err(error("M_FORBIDDEN", "Invalid username/password", 403)));
}

#[test]
fn test_password_login_rate_limit() {
    let mut server = Server::new();
    // A user without a password.
    server.repo.add_user("alice".to_owned(), "sub".to_owned(), 0).unwrap();

    for _ in 0..3 {
        let res = server.post(password_body("alice", "password", false));
        assert_eq!(res.unwrap_err().status, 403);
    }
    let res = server.post(password_body("alice", "password", false));
    assert_eq!(res, Err(error("M_LIMIT_EXCEEDED", "Too many login attempts", 429)));
}

#[test]
fn rate_limited_attempt_hands_out_no_hash() {
    let mut server = Server::new();
    let id = server.user_with_password("alice", "password");
    let requester = RequesterFingerprint { value: 7 };
    for _ in 0..3 {
        let res = server.post(password_body("alice", "wrong", false));
        assert_eq!(res.unwrap_err().status, 403);
    }
    assert_eq!(server.limiter.failures(requester, id), 3);
    // The fourth attempt stops before any hash is handed out for checking.
    let res = begin_password_login(&server.repo, &mut server.limiter, HOMESERVER, requester, "alice");
    assert!(matches!(res, Err(RouteError::RateLimited(_))));
    // Another requester is not limited.
    let other = RequesterFingerprint { value: 8 };
    assert!(begin_password_login(&server.repo, &mut server.limiter, HOMESERVER, other, "alice").is_ok());
}

#[test]
fn successful_login_clears_the_failure_count() {
    let mut server = Server::new();
    let id = server.user_with_password("alice", "password");
    let requester = RequesterFingerprint { value: 7 };
    for _ in 0..2 {
        assert!(server.post(password_body("alice", "wrong", false)).is_err());
    }
    assert!(server.post(password_body("alice", "password", false)).is_ok());
    assert_eq!(server.limiter.failures(requester, id), 0);
}

#[test]
fn test_unsupported_login_identifier() {
    let mut server = Server::new();
    let res = server.post(RequestBody {
        credentials: Credentials::Password {
            identifier: Some(Identifier::Unsupported),
            user: None,
            password: "password".to_owned(),
        },
        refresh_token: false,
    });
    assert_eq!(res, Err(error("M_UNKNOWN", "Unsupported login identifier", 400)));
}

#[test]
fn missing_identifier() {
    let mut server = Server::new();
    let res = server.post(RequestBody {
        credentials: Credentials::Password { identifier: None, user: None, password: "password".to_owned() },
        refresh_token: false,
    });
    assert_eq!(res, Err(error("M_BAD_JSON", "Missing property 'identifier", 400)));
}

#[test]
fn flat_user_takes_precedence() {
    let r = resolve_username(Some(Identifier::Unsupported), Some("bob".to_owned()));
    assert_eq!(r, Ok("bob".to_owned()));
    let r = resolve_username(Some(Identifier::User { user: "alice".to_owned() }), Some("bob".to_owned()));
    assert_eq!(r, Ok("bob".to_owned()));
}

#[test]
fn test_unsupported_login() {
    let mut server = Server::new();
    let res = server.post(RequestBody { credentials: Credentials::Unsupported, refresh_token: false });
    assert_eq!(res, Err(error("M_UNKNOWN", "Invalid login type", 400)));
}

/// Starts and fulfils a login-token handoff, as the SSO flow does.
fn get_login_token(server: &mut Server, user_id: u64, token: &str) -> String {
    let device = generate_device_id();
    let login = server.repo.add_sso_login(token.to_owned(), "http://example.com/".to_owned(), server.now).unwrap();
    let session = server.repo.add_compat_session(user_id, Some(device.clone()), server.now, false).unwrap();
    server.repo.fulfill_sso_login(login.id, session.id, server.now).unwrap();
    device
}

#[test]
fn test_login_token_login() {
    let mut server = Server::new();
    let user = server.repo.add_user("alice".to_owned(), "sub".to_owned(), 0).unwrap();

    let res = server.post(token_body("someinvalidtoken"));
    assert_eq!(res, Err(error("M_FORBIDDEN", "Invalid login token", 403)));

    let device = get_login_token(&mut server, user.id, "tokenone");
    let body = server.post(token_body("tokenone")).unwrap();
    assert!(body.access_token.starts_with("mct_"));
    assert_eq!(body.device_id, Some(device));
    assert_eq!(body.user_id, "@alice:example.com");

    // The same token a second time.
    let res = server.post(token_body("tokenone"));
    assert_eq!(res, Err(error("M_FORBIDDEN", "Invalid login token", 403)));

    // Too late.
    get_login_token(&mut server, user.id, "tokentwo");
    server.now += 60_000;
    let res = server.post(token_body("tokentwo"));
    assert_eq!(res, Err(error("M_FORBIDDEN", "Login token expired", 403)));
}

#[test]
fn login_token_window_boundary() {
    let mut server = Server::new();
    let user = server.repo.add_user("alice".to_owned(), "sub".to_owned(), 0).unwrap();
    let start = server.now;

    get_login_token(&mut server, user.id, "early");
    server.now = start + 29_000;
    assert!(token_login(&mut server.repo, server.now, "early").is_ok());

    server.now = start;
    get_login_token(&mut server, user.id, "late");
    server.now = start + 31_000;
    assert_eq!(token_login(&mut server.repo, server.now, "late").map(|_| ()), Err(RouteError::LoginTookTooLong));

    // A late attempt does not exchange the token: it stays refused as late.
    assert_eq!(token_login(&mut server.repo, server.now, "late").map(|_| ()), Err(RouteError::LoginTookTooLong));
}

#[test]
fn exchanged_token_is_refused_whenever() {
    let mut server = Server::new();
    let user = server.repo.add_user("alice".to_owned(), "sub".to_owned(), 0).unwrap();
    get_login_token(&mut server, user.id, "once");
    assert!(token_login(&mut server.repo, server.now, "once").is_ok());
    for dt in [0, 1_000, 100_000] {
        let r = token_login(&mut server.repo, server.now + dt, "once").map(|_| ());
        assert_eq!(r, Err(RouteError::InvalidLoginToken));
    }
}

#[test]
fn pending_token_is_invalid() {
    let mut server = Server::new();
    server.repo.add_sso_login("pending".to_owned(), "http://example.com/".to_owned(), 0).unwrap();
    assert_eq!(token_login(&mut server.repo, server.now, "pending").map(|_| ()), Err(RouteError::InvalidLoginToken));
}

#[test]
fn locked_user_cannot_log_in() {
    let mut server = Server::new();
    let id = server.user_with_password("alice", "password");
    server.repo.lock_user(id, 5).unwrap();
    let res = server.post(password_body("alice", "password", false));
    assert_eq!(res, Err(error("M_FORBIDDEN", "Invalid username/password", 403)));
}

#[test]
fn unprovisioned_user_gets_no_session() {
    let mut server = Server::new();
    let user = server.repo.add_user("carol".to_owned(), "sub".to_owned(), 0).unwrap();
    server.repo.add_password(user.id, 1, "hash:pw".to_owned(), None, 0).unwrap();
    let res = server.post(password_body("carol", "pw", false));
    assert_eq!(res, Err(error("M_UNKNOWN", "Internal server error", 500)));
    assert!(server.repo.lookup_compat_session(1_000).is_none());
}

#[test]
fn login_registers_the_device() {
    let mut server = Server::new();
    server.user_with_password("alice", "password");
    let body = server.post(password_body("alice", "password", false)).unwrap();
    let device = body.device_id.unwrap();
    assert_eq!(server.homeserver.update_device_display_name("alice", &device, "x"), Ok(()));
}

#[test]
fn failed_provisioning_opens_no_session() {
    let mut server = Server::new();
    let id = server.user_with_password("alice", "password");
    let user = server.repo.lookup_user(id).unwrap();
    let r = complete_password_login(&mut server.repo, &user, "DEV".to_owned(), Err("down".to_owned()), 0);
    assert_eq!(r.map(|_| ()), Err(RouteError::ProvisionDeviceFailed("down".to_owned())));
    assert_eq!(r_err_status(RouteError::ProvisionDeviceFailed("down".to_owned())), 500);
}

fn r_err_status(e: RouteError) -> u16 {
    e.to_matrix_error().status
}

#[test]
fn upgraded_hash_becomes_active() {
    let mut server = Server::new();
    let id = server.user_with_password("alice", "password");
    let requester = RequesterFingerprint { value: 1 };
    let challenge = begin_password_login(&server.repo, &mut server.limiter, HOMESERVER, requester, "alice").unwrap();
    let old_id = challenge.password.id;
    let outcome = PasswordOutcome::MatchUpgraded { version: 2, hashed_password: "hash2".to_owned() };
    finish_password_login(&mut server.repo, &mut server.limiter, requester, challenge, outcome, 9).unwrap();
    let active = server.repo.active_password(id).unwrap();
    assert_eq!(active.version, 2);
    assert_eq!(active.hashed_password, "hash2");
    assert_eq!(active.upgraded_from_id, Some(old_id));
    assert!(server.repo.is_sync_locked(id));
}

#[test]
fn duplicate_token_string_is_refused() {
    let mut server = Server::new();
    let user = server.repo.add_user("alice".to_owned(), "sub".to_owned(), 0).unwrap();
    let session = server.repo.add_compat_session(user.id, None, 0, false).unwrap();
    let first = issue_tokens(&mut server.repo, &session, &user, HOMESERVER, false, TTL_MS, None, "mct_same".to_owned(), "mcr_x".to_owned(), 0);
    assert!(first.is_ok());
    let second = issue_tokens(&mut server.repo, &session, &user, HOMESERVER, false, TTL_MS, None, "mct_same".to_owned(), "mcr_y".to_owned(), 0);
    assert!(matches!(second, Err(RouteError::Internal(_))));
}

#[test]
fn issued_tokens_are_distinct() {
    let mut server = Server::new();
    server.user_with_password("alice", "password");
    let mut seen = std::collections::HashSet::new();
    for _ in 0..50 {
        let body = server.post(password_body("alice", "password", true)).unwrap();
        assert!(seen.insert(body.access_token));
        assert!(seen.insert(body.refresh_token.unwrap()));
    }
}

#[test]
fn refresh_login_sets_expiry() {
    let mut server = Server::new();
    server.user_with_password("alice", "password");
    let body = server.post(password_body("alice", "password", true)).unwrap();
    let token = server.repo.find_access_token(&body.access_token, server.now).unwrap();
    assert_eq!(token.expires_at, Some(server.now + TTL_MS));
    // Expired tokens are not found any more.
    assert!(server.repo.find_access_token(&body.access_token, server.now + TTL_MS).is_none());
}

#[test]
fn user_agent_is_recorded() {
    let mut server = Server::new();
    let user = server.repo.add_user("alice".to_owned(), "sub".to_owned(), 0).unwrap();
    let session = server.repo.add_compat_session(user.id, None, 0, false).unwrap();
    issue_tokens(&mut server.repo, &session, &user, HOMESERVER, false, TTL_MS, Some("Agent/1".to_owned()), "mct_a".to_owned(), "mcr_a".to_owned(), 0).unwrap();
    let s = server.repo.lookup_compat_session(session.id).unwrap();
    assert_eq!(s.user_agent.as_deref(), Some("Agent/1"));
}

#[test]
fn mxid_and_localpart() {
    assert_eq!(mxid("example.com", "alice"), "@alice:example.com");
    assert_eq!(localpart("example.com", "@alice:example.com"), Some("alice"));
    assert_eq!(localpart("example.com", "@alice:something.corp"), None);
    assert_eq!(localpart("example.com", "alice"), None);
    assert_eq!(localpart("example.com", "@:example.com"), Some(""));
}

#[test]
fn token_prefixes() {
    assert_eq!(TokenType::CompatAccessToken.format("abc"), "mct_abc");
    assert_eq!(TokenType::CompatRefreshToken.format("abc"), "mcr_abc");
    assert_eq!(TokenType::AccessToken.prefix(), "mat");
    assert_eq!(TokenType::RefreshToken.prefix(), "mar");
    let t = TokenType::AccessToken.generate();
    assert_eq!(t.len(), 34);
    assert!(t[4..].chars().all(|c| c.is_ascii_alphanumeric()));
    assert_eq!(TokenType::check(&t), Some(TokenType::AccessToken));
    assert_eq!(TokenType::check("mcr_x"), Some(TokenType::CompatRefreshToken));
    assert_eq!(TokenType::check("xyz_x"), None);
    let d = generate_device_id();
    assert_eq!(d.len(), 10);
    assert!(d.chars().all(|c| c.is_ascii_alphanumeric()));
}

#[test]
fn error_vocabulary() {
    let limited = RouteError::RateLimited(PasswordCheckLimitedError { requester: RequesterFingerprint { value: 1 }, user_id: 2 });
    assert_eq!(limited.to_matrix_error(), error("M_LIMIT_EXCEEDED", "Too many login attempts", 429));
    assert_eq!(RouteError::Internal("x".to_owned()).to_matrix_error(), error("M_UNKNOWN", "Internal server error", 500));
    assert_eq!(RouteError::SessionNotFound.to_matrix_error().status, 500);
    assert_eq!(RouteError::NoPassword.to_matrix_error(), RouteError::UserNotFound.to_matrix_error());
    assert_eq!(
        RouteError::PasswordVerificationFailed("detail".to_owned()).to_matrix_error(),
        RouteError::UserNotFound.to_matrix_error()
    );
    assert_eq!(RouteError::LoginTookTooLong.to_matrix_error(), error("M_FORBIDDEN", "Login token expired", 403));
    assert_eq!(
        RouteError::InvalidJsonBody(JsonRejection::Other).to_matrix_error(),
        error("M_UNKNOWN", "Unknown error while parsing JSON body", 400)
    );
}
