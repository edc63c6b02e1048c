//! The legacy login flows over the repository: login-token exchange,
//! password login in phases around the password hash check and the device
//! provisioning, and token issuance.

use vstd::prelude::*;

use crate::login::{ResponseBody, RouteError};
use crate::matrix::{localpart, localpart_of, mxid, mxid_of};
use crate::model::{
    clone_opt_string, first_where, has_id, lemma_first_where, lemma_first_where_is,
    lemma_first_where_push, lemma_first_where_same, CompatAccessToken, CompatSession, Record,
    Timestamp, User, UserPassword,
};
use crate::rate_limit::{
    lemma_limited_after_threshold, Limiter, LimiterView, PasswordCheckLimitedError,
    RequesterFingerprint,
};
use crate::repository::{access_token_is, login_token_is, refresh_token_is, Repository, RepositoryView};
use crate::sso::{exchange_check_spec, lemma_single_use, CompatSsoLogin, ExchangeRefusal};

verus! {

/// What a token login yields on `repo` at `now`.
pub open spec fn token_login_spec(repo: RepositoryView, now: Timestamp, token: Seq<char>) -> Result<(CompatSession, User), RouteError> {
    match repo.sso_login_by_token(token) {
        None => Err(RouteError::InvalidLoginToken),
        Some(login) => match exchange_check_spec(login.state, now) {
            Err(ExchangeRefusal::InvalidLoginToken) => Err(RouteError::InvalidLoginToken),
            Err(ExchangeRefusal::LoginTookTooLong) => Err(RouteError::LoginTookTooLong),
            Ok(session_id) => match repo.session(session_id) {
                None => Err(RouteError::SessionNotFound),
                Some(session) => match repo.user(session.user_id) {
                    Some(user) => if user.spec_is_valid() {
                        Ok((session, user))
                    } else {
                        Err(RouteError::UserNotFound)
                    },
                    None => Err(RouteError::UserNotFound),
                },
            },
        },
    }
}

/// Exchanges a one-time login token for its session and user. On success
/// the token is marked exchanged; on failure nothing changes.
pub fn token_login(repo: &mut Repository, now: Timestamp, token: &str) -> (r: Result<(CompatSession, User), RouteError>)
    requires
        old(repo)@.wf(),
    ensures
        final(repo)@.wf(),
        r == token_login_spec(old(repo)@, now, token@),
        r is Ok ==> final(repo)@ == old(repo)@.with_sso_exchanged(old(repo)@.sso_login_by_token(token@)->Some_0.id, now),
        r is Err ==> final(repo)@ == old(repo)@,
{
    let login = match repo.find_sso_login_by_token(token) {
        Some(l) => l,
        None => {
            return Err(RouteError::InvalidLoginToken);
        },
    };
    let session_id = match login.state.exchange_check(now) {
        Ok(id) => id,
        Err(ExchangeRefusal::InvalidLoginToken) => {
            return Err(RouteError::InvalidLoginToken);
        },
        Err(ExchangeRefusal::LoginTookTooLong) => {
            return Err(RouteError::LoginTookTooLong);
        },
    };
    let session = match repo.lookup_compat_session(session_id) {
        Some(s) => s,
        None => {
            return Err(RouteError::SessionNotFound);
        },
    };
    let user = match repo.lookup_user(session.user_id) {
        Some(u) => u,
        None => {
            return Err(RouteError::UserNotFound);
        },
    };
    if !user.is_valid() {
        return Err(RouteError::UserNotFound);
    }
    repo.exchange_sso_login(login.id, now);
    Ok((session, user))
}

/// A login token exchanged by a successful token login is refused as an
/// invalid token by every later token login, whenever it comes.
pub proof fn lemma_token_login_single_use(repo: RepositoryView, now: Timestamp, token: Seq<char>, later: Timestamp)
    requires
        repo.wf(),
        token_login_spec(repo, now, token) is Ok,
    ensures
        token_login_spec(repo.with_sso_exchanged(repo.sso_login_by_token(token)->Some_0.id, now), later, token)
            == Err::<(CompatSession, User), RouteError>(RouteError::InvalidLoginToken),
{
    let p = login_token_is(token);
    lemma_first_where(repo.sso_logins, p);
    let k = first_where(repo.sso_logins, p)->Some_0;
    let login = repo.sso_logins[k];
    let q = has_id::<CompatSsoLogin>(login.id);
    assert forall|j: int| 0 <= j < k implies !q(#[trigger] repo.sso_logins[j]) by {
        assert(repo.sso_logins[j].spec_id() != repo.sso_logins[k].spec_id());
    }
    lemma_first_where_is(repo.sso_logins, q, k);
    let m = CompatSsoLogin { state: login.state.spec_exchanged(now), ..login };
    let t = repo.sso_logins.update(k, m);
    assert forall|j: int| 0 <= j < repo.sso_logins.len() implies p(#[trigger] repo.sso_logins[j]) == p(t[j]) by {}
    lemma_first_where_same(repo.sso_logins, t, p);
    lemma_single_use(login.state, now, later);
}

/// The user and active password a password check is to be made against.
#[derive(Debug, Clone)]
pub struct PasswordChallenge {
    pub user: User,
    pub password: UserPassword,
}

/// The localpart a password login names: the localpart of a full
/// identifier on this server, else the name as given.
pub open spec fn login_localpart(homeserver: Seq<char>, username: Seq<char>) -> Seq<char> {
    match localpart_of(homeserver, username) {
        Some(l) => l,
        None => username,
    }
}

/// What the first phase of a password login yields, and the limiter after it.
pub open spec fn begin_password_login_spec(
    repo: RepositoryView,
    limiter: LimiterView,
    homeserver: Seq<char>,
    requester: RequesterFingerprint,
    username: Seq<char>,
) -> (Result<PasswordChallenge, RouteError>, LimiterView) {
    match repo.user_named(login_localpart(homeserver, username)) {
        Some(user) => if !user.spec_is_valid() {
            (Err(RouteError::UserNotFound), limiter)
        } else if limiter.is_limited(requester.value, user.id) {
            (Err(RouteError::RateLimited(PasswordCheckLimitedError { requester, user_id: user.id })), limiter)
        } else {
            match repo.active_password(user.id) {
                None => (Err(RouteError::NoPassword), limiter.record_failure(requester.value, user.id)),
                Some(password) => (Ok(PasswordChallenge { user, password }), limiter),
            }
        },
        None => (Err(RouteError::UserNotFound), limiter),
    }
}

/// First phase of a password login: finds the user, applies the rate limit,
/// and finds the active password hash to check. A limited attempt stops here,
/// before any hash is handed out.
pub fn begin_password_login(
    repo: &Repository,
    limiter: &mut Limiter,
    homeserver: &str,
    requester: RequesterFingerprint,
    username: &str,
) -> (r: Result<PasswordChallenge, RouteError>)
    ensures
        (r, final(limiter)@) == begin_password_login_spec(repo@, old(limiter)@, homeserver@, requester, username@),
{
    let name = match localpart(homeserver, username) {
        Some(l) => l,
        None => username,
    };
    let user = match repo.find_user_by_username(name) {
        Some(u) => u,
        None => {
            return Err(RouteError::UserNotFound);
        },
    };
    if !user.is_valid() {
        return Err(RouteError::UserNotFound);
    }
    if let Err(e) = limiter.check_password(requester, user.id) {
        return Err(RouteError::RateLimited(e));
    }
    match repo.active_password(user.id) {
        None => {
            limiter.record_failure(requester, user.id);
            Err(RouteError::NoPassword)
        },
        Some(password) => Ok(PasswordChallenge { user, password }),
    }
}

/// After `k` consecutive failed checks of one requester against a valid
/// user that had none, the requester's next password login for that user is
/// refused as rate-limited, before any hash is handed out for checking,
/// exactly when `k` reached the limiter's threshold.
pub proof fn lemma_password_login_rate_limited(
    repo: RepositoryView,
    limiter: LimiterView,
    homeserver: Seq<char>,
    requester: RequesterFingerprint,
    username: Seq<char>,
    k: nat,
)
    requires
        repo.user_named(login_localpart(homeserver, username)) is Some,
        repo.user_named(login_localpart(homeserver, username))->Some_0.spec_is_valid(),
        limiter.failures(requester.value, repo.user_named(login_localpart(homeserver, username))->Some_0.id) == 0,
    ensures
        ({
            let user_id = repo.user_named(login_localpart(homeserver, username))->Some_0.id;
            let after = limiter.record_failures(requester.value, user_id, k);
            let r = begin_password_login_spec(repo, after, homeserver, requester, username).0;
            &&& k >= limiter.threshold ==> r == Err::<PasswordChallenge, RouteError>(
                RouteError::RateLimited(PasswordCheckLimitedError { requester, user_id }))
            &&& k < limiter.threshold ==> !(r matches Err(RouteError::RateLimited(_)))
        }),
{
    let user_id = repo.user_named(login_localpart(homeserver, username))->Some_0.id;
    lemma_limited_after_threshold(limiter, requester.value, user_id, k);
}

/// The outcome of checking a password against its hash.
#[derive(Debug, Clone, PartialEq, Eq)]
pub enum PasswordOutcome {
    /// The password does not match; the detail is for logs only.
    Mismatch(String),
    /// The password matches its hash.
    Match,
    /// The password matches, and was hashed again with a newer scheme.
    MatchUpgraded { version: u16, hashed_password: String },
}

/// Second phase of a password login, once the hash was checked: counts a
/// failure, or clears the count, stores an upgraded hash, and takes the
/// user's device-sync lock. Returns the user whose device is to be
/// provisioned.
pub fn finish_password_login(
    repo: &mut Repository,
    limiter: &mut Limiter,
    requester: RequesterFingerprint,
    challenge: PasswordChallenge,
    outcome: PasswordOutcome,
    now: Timestamp,
) -> (r: Result<User, RouteError>)
    requires
        old(repo)@.wf(),
    ensures
        final(repo)@.wf(),
        match outcome {
            PasswordOutcome::Mismatch(detail) => r == Err::<User, RouteError>(RouteError::PasswordVerificationFailed(detail))
                && final(repo)@ == old(repo)@
                && final(limiter)@ == old(limiter)@.record_failure(requester.value, challenge.user.id),
            PasswordOutcome::Match => r == Ok::<User, RouteError>(challenge.user)
                && final(limiter)@ == old(limiter)@.with_count(requester.value, challenge.user.id, 0)
                && final(repo)@.sync_locks.contains(challenge.user.id)
                && final(repo)@.passwords == old(repo)@.passwords
                && final(repo)@.sessions == old(repo)@.sessions,
            PasswordOutcome::MatchUpgraded { version, hashed_password } =>
                final(limiter)@ == old(limiter)@.with_count(requester.value, challenge.user.id, 0)
                && (r is Err <==> old(repo)@.next_id == u64::MAX)
                && (r is Err ==> r->Err_0 is Internal && final(repo)@ == old(repo)@)
                && (r is Ok ==> r == Ok::<User, RouteError>(challenge.user)
                    && final(repo)@.sync_locks.contains(challenge.user.id)
                    && final(repo)@.sessions == old(repo)@.sessions
                    && final(repo)@.passwords == old(repo)@.passwords.push(UserPassword {
                        id: old(repo)@.next_id,
                        user_id: challenge.user.id,
                        version,
                        hashed_password,
                        upgraded_from_id: Some(challenge.password.id),
                        created_at: now,
                    })),
        },
{
    let user_id = challenge.user.id;
    match outcome {
        PasswordOutcome::Mismatch(detail) => {
            limiter.record_failure(requester, user_id);
            return Err(RouteError::PasswordVerificationFailed(detail));
        },
        PasswordOutcome::Match => {
            limiter.record_success(requester, user_id);
        },
        PasswordOutcome::MatchUpgraded { version, hashed_password } => {
            limiter.record_success(requester, user_id);
            if let Err(e) = repo.add_password(user_id, version, hashed_password, Some(challenge.password.id), now) {
                return Err(RouteError::from_repository(e));
            }
        },
    }
    let ghost before = repo@;
    let fresh = repo.acquire_lock_for_sync(user_id);
    proof {
        if fresh {
            assert(repo@.sync_locks[before.sync_locks.len() as int] == user_id);
        }
    }
    Ok(challenge.user)
}

/// Last phase of a password login: once the device was provisioned on the
/// home server, opens the session. A failed provisioning opens none.
pub fn complete_password_login(
    repo: &mut Repository,
    user: &User,
    device_id: String,
    provisioned: Result<(), String>,
    now: Timestamp,
) -> (r: Result<CompatSession, RouteError>)
    requires
        old(repo)@.wf(),
    ensures
        final(repo)@.wf(),
        provisioned matches Err(e) ==> r == Err::<CompatSession, RouteError>(RouteError::ProvisionDeviceFailed(e))
            && final(repo)@ == old(repo)@,
        provisioned is Ok && old(repo)@.next_id == u64::MAX ==> (r matches Err(RouteError::Internal(_)))
            && final(repo)@ == old(repo)@,
        provisioned is Ok && old(repo)@.next_id < u64::MAX ==> r == Ok::<CompatSession, RouteError>(CompatSession {
            id: old(repo)@.next_id,
            user_id: user.id,
            device: Some(device_id),
            human_name: None,
            created_at: now,
            is_synapse_admin: false,
            user_agent: None,
            last_active_at: None,
            last_active_ip: None,
            finished_at: None,
        }) && final(repo)@ == (RepositoryView {
            sessions: old(repo)@.sessions.push(r->Ok_0),
            next_id: (old(repo)@.next_id + 1) as u64,
            ..old(repo)@
        }),
{
    if let Err(e) = provisioned {
        return Err(RouteError::ProvisionDeviceFailed(e));
    }
    match repo.add_compat_session(user.id, Some(device_id), now, false) {
        Ok(s) => Ok(s),
        Err(e) => Err(RouteError::from_repository(e)),
    }
}

/// Whether tokens can be issued on `repo`: the access token string is free,
/// the refresh token string too when one is asked for, and identifiers remain.
pub open spec fn can_issue(repo: RepositoryView, refresh: bool, access_token: Seq<char>, refresh_token: Seq<char>) -> bool {
    &&& repo.access_token(access_token) is None
    &&& if refresh {
        repo.next_id < u64::MAX - 1 && first_where(repo.refresh_tokens, refresh_token_is(refresh_token)) is None
    } else {
        repo.next_id < u64::MAX
    }
}

/// Finishes a login on `session` of `user`: records the user agent, stores an
/// access token (expiring after `ttl_ms` when a refresh token is asked for)
/// and the refresh token, releases the device-sync locks, and builds the
/// response. The token strings come from `TokenType::generate` or the caller.
pub fn issue_tokens(
    repo: &mut Repository,
    session: &CompatSession,
    user: &User,
    homeserver: &str,
    refresh: bool,
    ttl_ms: i64,
    user_agent: Option<String>,
    access_token: String,
    refresh_token: String,
    now: Timestamp,
) -> (r: Result<ResponseBody, RouteError>)
    requires
        old(repo)@.wf(),
    ensures
        final(repo)@.wf(),
        r is Ok <==> can_issue(old(repo)@, refresh, access_token@, refresh_token@),
        r matches Err(e) ==> e is Internal,
        r matches Ok(b) ==> b.access_token@ == access_token@ && b.device_id == session.device
            && b.user_id@ == mxid_of(homeserver@, user.username@)
            && (refresh ==> (b.refresh_token matches Some(t) && t@ == refresh_token@) && b.expires_in_ms == Some(ttl_ms))
            && (!refresh ==> b.refresh_token is None && b.expires_in_ms is None)
            && final(repo)@.access_token(access_token@) == Some(CompatAccessToken {
                id: old(repo)@.next_id,
                session_id: session.id,
                token: access_token,
                created_at: now,
                expires_at: if refresh { Some(saturating_add_spec(now, ttl_ms)) } else { None },
            })
            && final(repo)@.sync_locks.len() == 0,
{
    if let Some(ua) = user_agent {
        repo.record_user_agent(session.id, ua);
    }
    let ghost mid = repo@;
    let expires_at = if refresh { Some(saturating_add(now, ttl_ms)) } else { None };
    let at = match repo.add_access_token(session.id, access_token, now, expires_at) {
        Ok(t) => t,
        Err(e) => {
            return Err(RouteError::from_repository(e));
        },
    };
    proof { lemma_first_where_push(mid.access_tokens, at, access_token_is(at.token@)); }
    let refresh_out = if refresh {
        match repo.add_refresh_token(session.id, at.id, refresh_token, now) {
            Ok(t) => Some(t.token),
            Err(e) => {
                return Err(RouteError::from_repository(e));
            },
        }
    } else {
        None
    };
    repo.release_sync_locks();
    let user_id = mxid(homeserver, user.username.as_str());
    Ok(ResponseBody {
        access_token: at.token,
        device_id: clone_opt_string(&session.device),
        user_id,
        refresh_token: refresh_out,
        expires_in_ms: if refresh { Some(ttl_ms) } else { None },
    })
}

/// No two access tokens, nor two refresh tokens, of a well-formed repository
/// share a token string; every operation that adds a token keeps it so.
pub proof fn lemma_token_strings_unique(repo: RepositoryView, i: int, j: int)
    requires
        repo.wf(),
        i != j,
    ensures
        0 <= i < repo.access_tokens.len() && 0 <= j < repo.access_tokens.len()
            ==> repo.access_tokens[i].token@ != repo.access_tokens[j].token@,
        0 <= i < repo.refresh_tokens.len() && 0 <= j < repo.refresh_tokens.len()
            ==> repo.refresh_tokens[i].token@ != repo.refresh_tokens[j].token@,
{
}

/// `a + b`, or the largest timestamp when that overflows.
pub open spec fn saturating_add_spec(a: Timestamp, b: Timestamp) -> Timestamp {
    if a + b > i64::MAX {
        i64::MAX
    } else if a + b < i64::MIN {
        i64::MIN
    } else {
        (a + b) as i64
    }
}

fn saturating_add(a: Timestamp, b: Timestamp) -> (r: Timestamp)
    ensures
        r == saturating_add_spec(a, b),
{
    if b > 0 && a > i64::MAX - b {
        i64::MAX
    } else if b < 0 && a < i64::MIN - b {
        i64::MIN
    } else {
        a + b
    }
}

} // verus!
