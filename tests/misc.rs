use mas_core::upstream::AttributeMappingContext;
use mas_core::admin::{
    list_users, set_admin, CompatSessionMutations, EndCompatSessionInput, EndCompatSessionStatus, FilterParams, Request,
    SessionRequester, SetAdminError, UserStatus,
};
use mas_core::config::{default_http_address, HttpConfig};
use mas_core::jose::{
    Requirements, Usage, WebEncryptionCompressionAlgorithm, WebEncryptionSignatureAlgorithm,
    WebKeyEllipticCurve, WebKeyOperation, WebKeyType, WebKeyUse,
};
use mas_core::migration::{is_likely_appservice, row_user, transform_user, Error, ImportedUser, SynapseUser, UserFlags, UserInfo};
use mas_core::policy::{decide, AuthorizationGrantInput, Requester, Code, EvaluationResult, GrantType, PolicyDecision, PolicyError, Violation};
use mas_core::rate_limit::{Limiter, RequesterFingerprint};
use mas_core::repository::Repository;
use mas_core::tchap::{default_identity_server_url, email_allowed, identity_info_url, EmailAllowedResult, IdentityInfo, TchapConfig};

fn violation(msg: &str) -> Violation {
    Violation { msg: msg.to_owned(), redirect_uri: None, field: None, code: Some(Code::UsernameBanned) }
}

#[test]
fn code_names() {
    assert_eq!(Code::UsernameTooShort.as_str(), "username-too-short");
    assert_eq!(Code::UsernameAllNumeric.as_str(), "username-all-numeric");
    assert_eq!(Code::EmailDomainNotAllowed.as_str(), "email-domain-not-allowed");
    assert_eq!(Code::EmailBanned.as_str(), "email-banned");
    assert_eq!(GrantType::DeviceCode.as_str(), "urn:ietf:params:oauth:grant-type:device_code");
}

#[test]
fn evaluation_results() {
    let empty = EvaluationResult { violations: vec![] };
    assert!(empty.valid());
    assert_eq!(empty.message(), "");
    let two = EvaluationResult { violations: vec![violation("a"), violation("b")] };
    assert!(!two.valid());
    assert_eq!(two.message(), "a, b");
    assert!(matches!(decide(Ok(empty)), Ok(PolicyDecision::Allowed)));
    assert!(matches!(decide(Ok(two)), Ok(PolicyDecision::Denied(_))));
    assert!(decide(Err(PolicyError { message: "down".to_owned() })).is_err());
}

#[test]
fn limiter_counts_per_pair() {
    let mut l = Limiter::new(2);
    let a = RequesterFingerprint { value: 1 };
    let b = RequesterFingerprint { value: 2 };
    assert!(l.check_password(a, 10).is_ok());
    l.record_failure(a, 10);
    l.record_failure(a, 10);
    assert!(l.check_password(a, 10).is_err());
    assert!(l.check_password(a, 11).is_ok());
    assert!(l.check_password(b, 10).is_ok());
    l.reset();
    assert!(l.check_password(a, 10).is_ok());
}

#[test]
fn filter_query_strings() {
    assert_eq!(FilterParams { admin: None, status: None }.query_string(), "");
    assert_eq!(FilterParams { admin: Some(true), status: None }.query_string(), "?filter[admin]=true");
    assert_eq!(FilterParams { admin: None, status: Some(UserStatus::Locked) }.query_string(), "?filter[status]=locked");
    assert_eq!(
        FilterParams { admin: Some(false), status: Some(UserStatus::Active) }.query_string(),
        "?filter[admin]=false&filter[status]=active"
    );
}

#[test]
fn test_change_can_request_admin() {
    let mut repo = Repository::new();
    let alice = repo.add_user("alice".to_owned(), "s".to_owned(), 0).unwrap();
    let u = set_admin(&mut repo, alice.id, Request { admin: true }).unwrap();
    assert!(u.can_request_admin);
    assert!(repo.lookup_user(alice.id).unwrap().can_request_admin);
    let u = set_admin(&mut repo, alice.id, Request { admin: false }).unwrap();
    assert!(!u.can_request_admin);
    assert!(!repo.lookup_user(alice.id).unwrap().can_request_admin);
    assert_eq!(set_admin(&mut repo, 999, Request { admin: true }).map(|_| ()), Err(SetAdminError::NotFound(999)));
}

#[test]
fn list_users_filters() {
    let mut repo = Repository::new();
    let a = repo.add_user("alice".to_owned(), "s".to_owned(), 0).unwrap();
    let b = repo.add_user("bob".to_owned(), "s".to_owned(), 0).unwrap();
    repo.set_can_request_admin(b.id, true);
    repo.lock_user(a.id, 3);
    let all = list_users(&repo, &FilterParams { admin: None, status: None });
    assert_eq!(all.len(), 2);
    let admins = list_users(&repo, &FilterParams { admin: Some(true), status: None });
    assert_eq!(admins.iter().map(|u| u.username.clone()).collect::<Vec<_>>(), vec!["bob"]);
    let locked = list_users(&repo, &FilterParams { admin: None, status: Some(UserStatus::Locked) });
    assert_eq!(locked.iter().map(|u| u.username.clone()).collect::<Vec<_>>(), vec!["alice"]);
}

#[test]
fn end_compat_session() {
    let mut repo = Repository::new();
    let alice = repo.add_user("alice".to_owned(), "s".to_owned(), 0).unwrap();
    let session = repo.add_compat_session(alice.id, Some("DEV".to_owned()), 0, false).unwrap();
    let m = CompatSessionMutations::default();
    let stranger = SessionRequester { user_id: Some(999), is_admin: false };
    let owner = SessionRequester { user_id: Some(alice.id), is_admin: false };
    let p = m.end_compat_session(&mut repo, stranger, EndCompatSessionInput { compat_session_id: session.id }, 5).unwrap();
    assert_eq!(p.status(), EndCompatSessionStatus::NotFound);
    assert!(p.compat_session().is_none());
    let p = m.end_compat_session(&mut repo, owner, EndCompatSessionInput { compat_session_id: session.id }, 5).unwrap();
    assert_eq!(p.status(), EndCompatSessionStatus::Ended);
    assert_eq!(p.compat_session().unwrap().finished_at, Some(5));
    // A finished session is immutable.
    let p = m.end_compat_session(&mut repo, owner, EndCompatSessionInput { compat_session_id: session.id }, 9).unwrap();
    assert_eq!(p.compat_session().unwrap().finished_at, Some(5));
    let p = m.end_compat_session(&mut repo, owner, EndCompatSessionInput { compat_session_id: 12345 }, 9).unwrap();
    assert_eq!(p.status(), EndCompatSessionStatus::NotFound);
}

fn alg(usage: Usage, reference: &str) -> WebEncryptionSignatureAlgorithm {
    WebEncryptionSignatureAlgorithm {
        name: "X".to_owned(),
        description: "desc".to_owned(),
        usage,
        requirements: Requirements::Optional,
        change_controller: "IESG".to_owned(),
        reference: reference.to_owned(),
        analysis: String::new(),
    }
}

#[test]
fn jose_keys() {
    assert_eq!(alg(Usage::Alg, "[RFC7518, Section 3.2]").key(), Some("JsonWebSignatureAlg"));
    assert_eq!(alg(Usage::Alg, "[RFC8037, Section 3.1]").key(), Some("JsonWebSignatureAlg"));
    assert_eq!(alg(Usage::Alg, "[RFC-ietf-jose-fully-specified-algorithms, Section 2.2]").key(), Some("JsonWebSignatureAlg"));
    assert_eq!(alg(Usage::Alg, "[RFC7518, Section 4.3]").key(), Some("JsonWebEncryptionAlg"));
    assert_eq!(alg(Usage::Alg, "[WebCryptoAPI]").key(), Some("JsonWebEncryptionAlg"));
    assert_eq!(alg(Usage::Alg, "[RFC-ietf-jose-fully-specified-algorithms, Section 3.1]").key(), Some("JsonWebEncryptionAlg"));
    assert_eq!(alg(Usage::Alg, "[RFC9999]").key(), None);
    assert_eq!(alg(Usage::Enc, "").key(), Some("JsonWebEncryptionEnc"));
    assert_eq!(alg(Usage::Jwk, "").key(), None);
    assert_eq!(alg(Usage::Enc, "").name(), "X");
    assert_eq!(alg(Usage::Enc, "").description(), Some("desc"));

    let curve = |n: &str| WebKeyEllipticCurve {
        name: n.to_owned(),
        description: String::new(),
        requirements: Requirements::Recommended,
        change_controller: String::new(),
        reference: String::new(),
    };
    assert_eq!(curve("P-256").key(), Some("JsonWebKeyEcEllipticCurve"));
    assert_eq!(curve("secp256k1").key(), Some("JsonWebKeyEcEllipticCurve"));
    assert_eq!(curve("Ed25519").key(), Some("JsonWebKeyOkpEllipticCurve"));

    let c = WebEncryptionCompressionAlgorithm { value: "DEF".to_owned(), description: "d".to_owned(), change_controller: String::new(), reference: String::new() };
    assert_eq!(c.key(), Some("JsonWebEncryptionCompressionAlgorithm"));
    assert_eq!(c.name(), "DEF");
    let t = WebKeyType { value: "EC".to_owned(), description: "d".to_owned(), requirements: Requirements::Required, change_controller: String::new(), reference: String::new() };
    assert_eq!(t.key(), Some("JsonWebKeyType"));
    let u = WebKeyUse { value: "sig".to_owned(), description: "d".to_owned(), change_controller: String::new(), reference: String::new() };
    assert_eq!(u.key(), Some("JsonWebKeyUse"));
    let o = WebKeyOperation { name: "sign".to_owned(), description: "d".to_owned(), change_controller: String::new(), reference: String::new() };
    assert_eq!(o.key(), Some("JsonWebKeyOperation"));
    assert_eq!(o.name(), "sign");
}

fn info(hs: Option<&str>, requires_invite: Option<bool>, invited: Option<bool>) -> Option<IdentityInfo> {
    Some(IdentityInfo { hs: hs.map(str::to_owned), requires_invite, invited })
}

#[test]
fn email_allowed_decisions() {
    assert_eq!(email_allowed(None, "a.org"), EmailAllowedResult::WrongServer);
    assert_eq!(email_allowed(info(None, None, None), "a.org"), EmailAllowedResult::WrongServer);
    assert_eq!(email_allowed(info(Some("b.org"), None, None), "a.org"), EmailAllowedResult::WrongServer);
    assert_eq!(email_allowed(info(Some("a.org"), None, None), "a.org"), EmailAllowedResult::Allowed);
    assert_eq!(email_allowed(info(Some("a.org"), Some(true), None), "a.org"), EmailAllowedResult::InvitationMissing);
    assert_eq!(email_allowed(info(Some("a.org"), Some(true), Some(true)), "a.org"), EmailAllowedResult::Allowed);
}

#[test]
fn identity_server_urls() {
    assert_eq!(
        identity_info_url("http://localhost:8083/", "a@b.c"),
        "http://localhost:8083/_matrix/identity/api/v1/info?medium=email&address=a@b.c"
    );
    assert_eq!(default_identity_server_url(None), "http://localhost:8083/");
    assert_eq!(default_identity_server_url(Some("not a url".to_owned())), "http://localhost:8083/");
    assert_eq!(default_identity_server_url(Some("https://id.example.org".to_owned())), "https://id.example.org/");
    assert_eq!(TchapConfig::from_configured(None).identity_server_url, "http://localhost:8083/");
}

#[test]
fn http_config_defaults() {
    assert_eq!(default_http_address(), "[::]:8080");
    assert_eq!(HttpConfig::default().address, "[::]:8080");
    assert_eq!(HttpConfig::generate().address, "[::]:8080");
    assert_eq!(HttpConfig::path(), "http");
}

#[test]
fn user_flags() {
    let f = UserFlags::new(true, false, true);
    assert!(f.is_synapse_admin());
    assert!(!f.is_deactivated());
    assert!(f.is_guest());
    assert!(f.skips_sessions());
    let g = UserFlags::new(false, false, false);
    assert!(!g.skips_sessions());
    assert!(UserFlags::new(false, true, false).is_deactivated());
    assert!(is_likely_appservice("_bridge"));
    assert!(!is_likely_appservice("alice"));
    assert!(!is_likely_appservice(""));
}

fn synapse_user(name: &str, deactivated: bool, hash: Option<&str>) -> SynapseUser {
    SynapseUser {
        name: name.to_owned(),
        password_hash: hash.map(str::to_owned),
        admin: true,
        deactivated,
        is_guest: false,
        creation_ts: 1234,
    }
}

#[test]
fn transform_users() {
    let (u, p) = transform_user(&synapse_user("@alice:example.com", true, Some("$2b$hash")), "example.com", 10, 11).unwrap();
    assert_eq!(u.username, "alice");
    assert_eq!(u.user_id, 10);
    assert_eq!(u.locked_at, Some(1234));
    assert!(u.can_request_admin);
    assert!(!u.is_guest);
    let p = p.unwrap();
    assert_eq!(p.user_password_id, 11);
    assert_eq!(p.user_id, 10);
    assert_eq!(p.hashed_password, "$2b$hash");

    let (u, p) = transform_user(&synapse_user("@bob:example.com", false, None), "example.com", 1, 2).unwrap();
    assert_eq!(u.locked_at, None);
    assert!(p.is_none());

    let e = transform_user(&synapse_user("@bob:other.org", false, None), "example.com", 1, 2).unwrap_err();
    assert_eq!(e, Error::ExtractLocalpart { user: "@bob:other.org".to_owned() });
}

#[test]
fn rows_find_their_user() {
    let info = UserInfo { mas_user_id: 77, flags: UserFlags::new(false, false, false) };
    let users = vec![ImportedUser { localpart: "alice".to_owned(), info }];
    assert_eq!(row_user(&users, "example.com", "@alice:example.com", "devices"), Ok(Some(info)));
    assert_eq!(row_user(&users, "example.com", "@_bridge_bot:example.com", "devices"), Ok(None));
    assert_eq!(
        row_user(&users, "example.com", "@carol:example.com", "devices"),
        Err(Error::MissingUserFromDependentTable { table: "devices".to_owned(), user: "@carol:example.com".to_owned() })
    );
    assert_eq!(
        row_user(&users, "example.com", "@alice:elsewhere.org", "devices"),
        Err(Error::ExtractLocalpart { user: "@alice:elsewhere.org".to_owned() })
    );
}

#[test]
fn device_grant_policy_input() {
    let mut repo = Repository::new();
    let alice = repo.add_user("alice".to_owned(), "s".to_owned(), 0).unwrap();
    let input = AuthorizationGrantInput::for_device_code_grant(alice, 3, "openid".to_owned(), Requester::default());
    assert_eq!(input.grant_type, GrantType::DeviceCode);
    assert_eq!(input.client_id, 3);
    assert_eq!(input.user.unwrap().username, "alice");
}

#[test]
fn finished_sessions_are_immutable() {
    let mut repo = Repository::new();
    let alice = repo.add_user("alice".to_owned(), "s".to_owned(), 0).unwrap();
    let session = repo.add_compat_session(alice.id, None, 0, false).unwrap();
    assert!(repo.record_activity(session.id, 10, Some("10.0.0.1".to_owned())));
    let s = repo.lookup_compat_session(session.id).unwrap();
    assert_eq!(s.last_active_at, Some(10));
    assert_eq!(s.last_active_ip.as_deref(), Some("10.0.0.1"));

    repo.finish_compat_session(session.id, 20).unwrap();
    assert!(!repo.record_activity(session.id, 30, None));
    let ua = repo.record_user_agent(session.id, "Agent".to_owned()).unwrap();
    assert_eq!(ua.user_agent, None);
    let s = repo.lookup_compat_session(session.id).unwrap();
    assert_eq!(s.finished_at, Some(20));
    assert_eq!(s.last_active_at, Some(10));
    assert!(!repo.record_activity(999, 30, None));
}

#[test]
fn attribute_mapping_context_builders() {
    let mut claims = std::collections::HashMap::new();
    claims.insert("sub".to_owned(), serde_json::Value::from("abc"));
    let ctx = AttributeMappingContext::new()
        .with_id_token_claims(claims)
        .with_userinfo_claims(serde_json::Value::from(true))
        .with_extra_callback_parameters(serde_json::Value::from(3));
    assert_eq!(ctx.id_token_claims.unwrap()["sub"], serde_json::Value::from("abc"));
    assert_eq!(ctx.userinfo_claims, Some(serde_json::Value::from(true)));
    assert_eq!(ctx.extra_callback_parameters, Some(serde_json::Value::from(3)));
    assert!(AttributeMappingContext::new().userinfo_claims.is_none());
}
