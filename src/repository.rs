//! An in-memory repository of users, sessions, tokens and grants, with the
//! invariants the lifecycle relies on: identifiers are never reused and token
//! strings are unique.

use vstd::prelude::*;

use crate::device_grant::{DeviceCodeGrant, DeviceCodeGrantState};
use crate::model::{
    first_where, find_index, has_id, ids_below, index_of, lemma_first_where, lemma_first_where_is,
    lemma_push_fresh, CompatAccessToken,
    CompatRefreshToken, CompatSession, Record, Timestamp, User, UserPassword,
};
use crate::sso::{CompatSsoLogin, CompatSsoLoginState};
use crate::text::str_eq;

verus! {

/// A storage failure. Each of them may be retried.
#[derive(Debug, Clone, Copy, PartialEq, Eq, Structural)]
pub enum RepositoryError {
    /// No identifier is left to allocate.
    IdsExhausted,
    /// A token with the same string exists already.
    TokenCollision,
}

/// The repository's contents.
pub struct RepositoryView {
    pub users: Seq<User>,
    pub passwords: Seq<UserPassword>,
    pub sessions: Seq<CompatSession>,
    pub access_tokens: Seq<CompatAccessToken>,
    pub refresh_tokens: Seq<CompatRefreshToken>,
    pub sso_logins: Seq<CompatSsoLogin>,
    pub device_grants: Seq<DeviceCodeGrant>,
    pub sync_locks: Seq<u64>,
    pub next_id: u64,
}

/// The predicate of an access token whose string is `t`.
pub open spec fn access_token_is(t: Seq<char>) -> spec_fn(CompatAccessToken) -> bool {
    |x: CompatAccessToken| x.token@ == t
}

/// The predicate of a refresh token whose string is `t`.
pub open spec fn refresh_token_is(t: Seq<char>) -> spec_fn(CompatRefreshToken) -> bool {
    |x: CompatRefreshToken| x.token@ == t
}

/// The predicate of a login token whose string is `t`.
pub open spec fn login_token_is(t: Seq<char>) -> spec_fn(CompatSsoLogin) -> bool {
    |x: CompatSsoLogin| x.login_token@ == t
}

/// The predicate of a user named `name`.
pub open spec fn username_is(name: Seq<char>) -> spec_fn(User) -> bool {
    |x: User| x.username@ == name
}

/// The predicate of a password of user `user_id`.
pub open spec fn password_of(user_id: u64) -> spec_fn(UserPassword) -> bool {
    |x: UserPassword| x.user_id == user_id
}

/// The last index of `s` whose element satisfies `p`, if any.
pub open spec fn last_where<T>(s: Seq<T>, p: spec_fn(T) -> bool) -> Option<int>
    decreases s.len(),
{
    if s.len() == 0 {
        None
    } else if p(s.last()) {
        Some(s.len() - 1)
    } else {
        last_where(s.drop_last(), p)
    }
}

/// No two records of `s` have the same identifier.
pub open spec fn unique_ids<T: Record>(s: Seq<T>) -> bool {
    forall|i: int, j: int| 0 <= i < s.len() && 0 <= j < s.len() && i != j ==> s[i].spec_id() != s[j].spec_id()
}

/// No two elements of `s` have the same string under `key`.
pub open spec fn distinct_strings<T>(s: Seq<T>, key: spec_fn(T) -> Seq<char>) -> bool {
    forall|i: int, j: int| 0 <= i < s.len() && 0 <= j < s.len() && i != j ==> key(s[i]) != key(s[j])
}

impl RepositoryView {
    /// The invariant of the repository.
    pub open spec fn wf(self) -> bool {
        &&& ids_below(self.users, self.next_id)
        &&& ids_below(self.passwords, self.next_id)
        &&& ids_below(self.sessions, self.next_id)
        &&& ids_below(self.access_tokens, self.next_id)
        &&& ids_below(self.refresh_tokens, self.next_id)
        &&& ids_below(self.sso_logins, self.next_id)
        &&& ids_below(self.device_grants, self.next_id)
        &&& unique_ids(self.sso_logins)
        &&& distinct_strings(self.access_tokens, |x: CompatAccessToken| x.token@)
        &&& distinct_strings(self.refresh_tokens, |x: CompatRefreshToken| x.token@)
    }

    /// The user with identifier `id`.
    pub open spec fn user(self, id: u64) -> Option<User> {
        match index_of(self.users, id) {
            Some(i) => Some(self.users[i]),
            None => None,
        }
    }

    /// The first user named `name`.
    pub open spec fn user_named(self, name: Seq<char>) -> Option<User> {
        match first_where(self.users, username_is(name)) {
            Some(i) => Some(self.users[i]),
            None => None,
        }
    }

    /// The most recent password of user `user_id`.
    pub open spec fn active_password(self, user_id: u64) -> Option<UserPassword> {
        match last_where(self.passwords, password_of(user_id)) {
            Some(i) => Some(self.passwords[i]),
            None => None,
        }
    }

    /// The session with identifier `id`.
    pub open spec fn session(self, id: u64) -> Option<CompatSession> {
        match index_of(self.sessions, id) {
            Some(i) => Some(self.sessions[i]),
            None => None,
        }
    }

    /// The access token whose string is `t`, whether expired or not.
    pub open spec fn access_token(self, t: Seq<char>) -> Option<CompatAccessToken> {
        match first_where(self.access_tokens, access_token_is(t)) {
            Some(i) => Some(self.access_tokens[i]),
            None => None,
        }
    }

    /// The login token whose string is `t`.
    pub open spec fn sso_login_by_token(self, t: Seq<char>) -> Option<CompatSsoLogin> {
        match first_where(self.sso_logins, login_token_is(t)) {
            Some(i) => Some(self.sso_logins[i]),
            None => None,
        }
    }

    /// The repository after marking handoff `id` as exchanged at `now`.
    pub open spec fn with_sso_exchanged(self, id: u64, now: Timestamp) -> RepositoryView {
        match index_of(self.sso_logins, id) {
            None => self,
            Some(i) => RepositoryView {
                sso_logins: self.sso_logins.update(i, CompatSsoLogin { state: self.sso_logins[i].state.spec_exchanged(now), ..self.sso_logins[i] }),
                ..self
            },
        }
    }

    /// The device-code grant with identifier `id`.
    pub open spec fn device_grant(self, id: u64) -> Option<DeviceCodeGrant> {
        match index_of(self.device_grants, id) {
            Some(i) => Some(self.device_grants[i]),
            None => None,
        }
    }
}

/// The repository of one deployment.
pub struct Repository {
    users: Vec<User>,
    passwords: Vec<UserPassword>,
    sessions: Vec<CompatSession>,
    access_tokens: Vec<CompatAccessToken>,
    refresh_tokens: Vec<CompatRefreshToken>,
    sso_logins: Vec<CompatSsoLogin>,
    device_grants: Vec<DeviceCodeGrant>,
    sync_locks: Vec<u64>,
    next_id: u64,
}

impl View for Repository {
    type V = RepositoryView;

    closed spec fn view(&self) -> RepositoryView {
        RepositoryView {
            users: self.users@,
            passwords: self.passwords@,
            sessions: self.sessions@,
            access_tokens: self.access_tokens@,
            refresh_tokens: self.refresh_tokens@,
            sso_logins: self.sso_logins@,
            device_grants: self.device_grants@,
            sync_locks: self.sync_locks@,
            next_id: self.next_id,
        }
    }
}

fn lookup_in<T: Record>(v: &Vec<T>, id: u64) -> (r: Option<T>)
    ensures
        r == (match index_of(v@, id) {
            Some(i) => Some(v@[i]),
            None => None::<T>,
        }),
{
    proof { lemma_first_where(v@, has_id::<T>(id)); }
    match find_index(v, id) {
        Some(i) => Some(v[i].duplicate()),
        None => None,
    }
}

impl Repository {
    /// An empty repository.
    pub fn new() -> (r: Repository)
        ensures
            r@.wf(),
            r@.users.len() == 0,
            r@.passwords.len() == 0,
            r@.sessions.len() == 0,
            r@.access_tokens.len() == 0,
            r@.refresh_tokens.len() == 0,
            r@.sso_logins.len() == 0,
            r@.device_grants.len() == 0,
            r@.sync_locks.len() == 0,
    {
        Repository {
            users: Vec::new(),
            passwords: Vec::new(),
            sessions: Vec::new(),
            access_tokens: Vec::new(),
            refresh_tokens: Vec::new(),
            sso_logins: Vec::new(),
            device_grants: Vec::new(),
            sync_locks: Vec::new(),
            next_id: 1,
        }
    }

    /// Adds a user, who is neither locked nor deactivated and cannot
    /// request admin.
    pub fn add_user(&mut self, username: String, sub: String, now: Timestamp) -> (r: Result<User, RepositoryError>)
        requires
            old(self)@.wf(),
        ensures
            final(self)@.wf(),
            r is Err <==> old(self)@.next_id == u64::MAX,
            r matches Err(e) ==> e == RepositoryError::IdsExhausted && final(self)@ == old(self)@,
            r matches Ok(u) ==> u == (User {
                id: old(self)@.next_id,
                username,
                sub,
                created_at: now,
                locked_at: None,
                deactivated_at: None,
                can_request_admin: false,
            }) && final(self)@ == (RepositoryView {
                users: old(self)@.users.push(u),
                next_id: (old(self)@.next_id + 1) as u64,
                ..old(self)@
            }),
    {
        let id = self.alloc_id()?;
        let user = User {
            id,
            username,
            sub,
            created_at: now,
            locked_at: None,
            deactivated_at: None,
            can_request_admin: false,
        };
        proof { lemma_push_fresh(self.users@, user, id); }
        self.users.push(user.duplicate());
        Ok(user)
    }

    /// The user with identifier `id`.
    pub fn lookup_user(&self, id: u64) -> (r: Option<User>)
        ensures
            r == self@.user(id),
    {
        lookup_in(&self.users, id)
    }

    /// Every user, in the order they were added.
    pub fn all_users(&self) -> (r: &Vec<User>)
        ensures
            r@ == self@.users,
    {
        &self.users
    }

    /// The first user named `name`.
    pub fn find_user_by_username(&self, name: &str) -> (r: Option<User>)
        ensures
            r == self@.user_named(name@),
    {
        let mut i: usize = 0;
        while i < self.users.len()
            invariant
                i <= self.users@.len(),
                forall|j: int| 0 <= j < i ==> !username_is(name@)(#[trigger] self.users@[j]),
            decreases self.users.len() - i,
        {
            if str_eq(self.users[i].username.as_str(), name) {
                proof { lemma_first_where_is(self.users@, username_is(name@), i as int); }
                return Some(self.users[i].duplicate());
            }
            i = i + 1;
        }
        proof { lemma_first_where(self.users@, username_is(name@)); }
        None
    }

    /// Locks the user with identifier `id` at `now`, if it is not locked yet.
    pub fn lock_user(&mut self, id: u64, now: Timestamp) -> (r: Option<User>)
        requires
            old(self)@.wf(),
        ensures
            final(self)@.wf(),
            match index_of(old(self)@.users, id) {
                None => r is None && final(self)@ == old(self)@,
                Some(i) => {
                    let u = old(self)@.users[i];
                    let v = if u.locked_at is None { User { locked_at: Some(now), ..u } } else { u };
                    r == Some(v) && final(self)@ == (RepositoryView { users: old(self)@.users.update(i, v), ..old(self)@ })
                },
            },
    {
        proof { lemma_first_where(self.users@, has_id::<User>(id)); }
        match find_index(&self.users, id) {
            None => None,
            Some(i) => {
                let mut u = self.users[i].duplicate();
                if u.locked_at.is_none() {
                    u.locked_at = Some(now);
                }
                self.users.set(i, u.duplicate());
                Some(u)
            },
        }
    }

    /// Sets whether the user with identifier `id` can request admin.
    pub fn set_can_request_admin(&mut self, id: u64, can_request_admin: bool) -> (r: Option<User>)
        requires
            old(self)@.wf(),
        ensures
            final(self)@.wf(),
            match index_of(old(self)@.users, id) {
                None => r is None && final(self)@ == old(self)@,
                Some(i) => {
                    let v = User { can_request_admin, ..old(self)@.users[i] };
                    r == Some(v) && final(self)@ == (RepositoryView { users: old(self)@.users.update(i, v), ..old(self)@ })
                },
            },
    {
        proof { lemma_first_where(self.users@, has_id::<User>(id)); }
        match find_index(&self.users, id) {
            None => None,
            Some(i) => {
                let mut u = self.users[i].duplicate();
                u.can_request_admin = can_request_admin;
                self.users.set(i, u.duplicate());
                Some(u)
            },
        }
    }

    /// Adds a password hash for user `user_id`; it becomes the active one.
    pub fn add_password(
        &mut self,
        user_id: u64,
        version: u16,
        hashed_password: String,
        upgraded_from_id: Option<u64>,
        now: Timestamp,
    ) -> (r: Result<UserPassword, RepositoryError>)
        requires
            old(self)@.wf(),
        ensures
            final(self)@.wf(),
            r is Err <==> old(self)@.next_id == u64::MAX,
            r matches Err(e) ==> e == RepositoryError::IdsExhausted && final(self)@ == old(self)@,
            r matches Ok(p) ==> p == (UserPassword {
                id: old(self)@.next_id,
                user_id,
                version,
                hashed_password,
                upgraded_from_id,
                created_at: now,
            }) && final(self)@ == (RepositoryView {
                passwords: old(self)@.passwords.push(p),
                next_id: (old(self)@.next_id + 1) as u64,
                ..old(self)@
            }),
    {
        let id = self.alloc_id()?;
        let p = UserPassword { id, user_id, version, hashed_password, upgraded_from_id, created_at: now };
        proof { lemma_push_fresh(self.passwords@, p, id); }
        self.passwords.push(p.duplicate());
        Ok(p)
    }

    /// The active (most recent) password of user `user_id`.
    pub fn active_password(&self, user_id: u64) -> (r: Option<UserPassword>)
        ensures
            r == self@.active_password(user_id),
    {
        let ghost p = password_of(user_id);
        let mut found: Option<usize> = None;
        let mut i: usize = 0;
        while i < self.passwords.len()
            invariant
                i <= self.passwords@.len(),
                p == password_of(user_id),
                found matches Some(k) ==> last_where(self.passwords@.subrange(0, i as int), p) == Some(k as int) && k < i,
                found is None ==> last_where(self.passwords@.subrange(0, i as int), p) is None,
            decreases self.passwords.len() - i,
        {
            proof {
                assert(self.passwords@.subrange(0, i + 1).drop_last() =~= self.passwords@.subrange(0, i as int));
            }
            if self.passwords[i].user_id == user_id {
                found = Some(i);
            }
            i = i + 1;
        }
        proof { assert(self.passwords@.subrange(0, i as int) =~= self.passwords@); }
        match found {
            Some(k) => Some(self.passwords[k].duplicate()),
            None => None,
        }
    }

    /// Adds an active compat session of user `user_id`.
    pub fn add_compat_session(
        &mut self,
        user_id: u64,
        device: Option<String>,
        now: Timestamp,
        is_synapse_admin: bool,
    ) -> (r: Result<CompatSession, RepositoryError>)
        requires
            old(self)@.wf(),
        ensures
            final(self)@.wf(),
            r is Err <==> old(self)@.next_id == u64::MAX,
            r matches Err(e) ==> e == RepositoryError::IdsExhausted && final(self)@ == old(self)@,
            r matches Ok(s) ==> s == (CompatSession {
                id: old(self)@.next_id,
                user_id,
                device,
                human_name: None,
                created_at: now,
                is_synapse_admin,
                user_agent: None,
                last_active_at: None,
                last_active_ip: None,
                finished_at: None,
            }) && final(self)@ == (RepositoryView {
                sessions: old(self)@.sessions.push(s),
                next_id: (old(self)@.next_id + 1) as u64,
                ..old(self)@
            }),
    {
        let id = self.alloc_id()?;
        let s = CompatSession {
            id,
            user_id,
            device,
            human_name: None,
            created_at: now,
            is_synapse_admin,
            user_agent: None,
            last_active_at: None,
            last_active_ip: None,
            finished_at: None,
        };
        proof { lemma_push_fresh(self.sessions@, s, id); }
        self.sessions.push(s.duplicate());
        Ok(s)
    }

    /// The compat session with identifier `id`.
    pub fn lookup_compat_session(&self, id: u64) -> (r: Option<CompatSession>)
        ensures
            r == self@.session(id),
    {
        lookup_in(&self.sessions, id)
    }

    /// Ends the compat session `id` at `now`. A finished session stays as it
    /// was.
    pub fn finish_compat_session(&mut self, id: u64, now: Timestamp) -> (r: Option<CompatSession>)
        requires
            old(self)@.wf(),
        ensures
            final(self)@.wf(),
            match index_of(old(self)@.sessions, id) {
                None => r is None && final(self)@ == old(self)@,
                Some(i) => {
                    let s = old(self)@.sessions[i];
                    let t = if s.finished_at is None { CompatSession { finished_at: Some(now), ..s } } else { s };
                    r == Some(t) && final(self)@ == (RepositoryView { sessions: old(self)@.sessions.update(i, t), ..old(self)@ })
                },
            },
    {
        proof { lemma_first_where(self.sessions@, has_id::<CompatSession>(id)); }
        match find_index(&self.sessions, id) {
            None => None,
            Some(i) => {
                let mut s = self.sessions[i].duplicate();
                if s.finished_at.is_none() {
                    s.finished_at = Some(now);
                }
                self.sessions.set(i, s.duplicate());
                Some(s)
            },
        }
    }

    /// Records the user agent of compat session `id`. A finished session
    /// stays as it was.
    pub fn record_user_agent(&mut self, id: u64, user_agent: String) -> (r: Option<CompatSession>)
        requires
            old(self)@.wf(),
        ensures
            final(self)@.wf(),
            match index_of(old(self)@.sessions, id) {
                None => r is None && final(self)@ == old(self)@,
                Some(i) => {
                    let s = old(self)@.sessions[i];
                    let t = if s.finished_at is None { CompatSession { user_agent: Some(user_agent), ..s } } else { s };
                    r == Some(t) && final(self)@ == (RepositoryView { sessions: old(self)@.sessions.update(i, t), ..old(self)@ })
                },
            },
    {
        proof { lemma_first_where(self.sessions@, has_id::<CompatSession>(id)); }
        match find_index(&self.sessions, id) {
            None => None,
            Some(i) => {
                let mut s = self.sessions[i].duplicate();
                if s.finished_at.is_none() {
                    s.user_agent = Some(user_agent);
                }
                self.sessions.set(i, s.duplicate());
                Some(s)
            },
        }
    }

    /// Records activity on compat session `id` at `now` from `ip`. Returns
    /// whether an active session was found; a finished one stays as it was.
    pub fn record_activity(&mut self, id: u64, now: Timestamp, ip: Option<String>) -> (r: bool)
        requires
            old(self)@.wf(),
        ensures
            final(self)@.wf(),
            match index_of(old(self)@.sessions, id) {
                None => !r && final(self)@ == old(self)@,
                Some(i) => {
                    let s = old(self)@.sessions[i];
                    if s.finished_at is None {
                        let t = CompatSession { last_active_at: Some(now), last_active_ip: ip, ..s };
                        r && final(self)@ == (RepositoryView { sessions: old(self)@.sessions.update(i, t), ..old(self)@ })
                    } else {
                        !r && final(self)@ == old(self)@
                    }
                },
            },
    {
        proof { lemma_first_where(self.sessions@, has_id::<CompatSession>(id)); }
        match find_index(&self.sessions, id) {
            None => false,
            Some(i) => {
                if self.sessions[i].finished_at.is_some() {
                    return false;
                }
                let mut s = self.sessions[i].duplicate();
                s.last_active_at = Some(now);
                s.last_active_ip = ip;
                self.sessions.set(i, s);
                true
            },
        }
    }

    fn access_token_position(&self, token: &str) -> (r: Option<usize>)
        ensures
            r matches Some(i) ==> first_where(self@.access_tokens, access_token_is(token@)) == Some(i as int)
                && i < self@.access_tokens.len(),
            r is None ==> first_where(self@.access_tokens, access_token_is(token@)) is None,
    {
        let mut i: usize = 0;
        while i < self.access_tokens.len()
            invariant
                i <= self.access_tokens@.len(),
                forall|j: int| 0 <= j < i ==> !access_token_is(token@)(#[trigger] self.access_tokens@[j]),
            decreases self.access_tokens.len() - i,
        {
            if str_eq(self.access_tokens[i].token.as_str(), token) {
                proof { lemma_first_where_is(self.access_tokens@, access_token_is(token@), i as int); }
                return Some(i);
            }
            i = i + 1;
        }
        proof { lemma_first_where(self.access_tokens@, access_token_is(token@)); }
        None
    }

    fn refresh_token_position(&self, token: &str) -> (r: Option<usize>)
        ensures
            r matches Some(i) ==> first_where(self@.refresh_tokens, refresh_token_is(token@)) == Some(i as int)
                && i < self@.refresh_tokens.len(),
            r is None ==> first_where(self@.refresh_tokens, refresh_token_is(token@)) is None,
    {
        let mut i: usize = 0;
        while i < self.refresh_tokens.len()
            invariant
                i <= self.refresh_tokens@.len(),
                forall|j: int| 0 <= j < i ==> !refresh_token_is(token@)(#[trigger] self.refresh_tokens@[j]),
            decreases self.refresh_tokens.len() - i,
        {
            if str_eq(self.refresh_tokens[i].token.as_str(), token) {
                proof { lemma_first_where_is(self.refresh_tokens@, refresh_token_is(token@), i as int); }
                return Some(i);
            }
            i = i + 1;
        }
        proof { lemma_first_where(self.refresh_tokens@, refresh_token_is(token@)); }
        None
    }

    /// Adds an access token of session `session_id`. A token whose string is
    /// taken already is refused, and nothing is written.
    pub fn add_access_token(
        &mut self,
        session_id: u64,
        token: String,
        now: Timestamp,
        expires_at: Option<Timestamp>,
    ) -> (r: Result<CompatAccessToken, RepositoryError>)
        requires
            old(self)@.wf(),
        ensures
            final(self)@.wf(),
            old(self)@.access_token(token@) is Some ==> r == Err::<CompatAccessToken, RepositoryError>(RepositoryError::TokenCollision)
                && final(self)@ == old(self)@,
            old(self)@.access_token(token@) is None && old(self)@.next_id == u64::MAX
                ==> r == Err::<CompatAccessToken, RepositoryError>(RepositoryError::IdsExhausted) && final(self)@ == old(self)@,
            r matches Ok(t) ==> old(self)@.access_token(token@) is None && t == (CompatAccessToken {
                id: old(self)@.next_id,
                session_id,
                token,
                created_at: now,
                expires_at,
            }) && final(self)@ == (RepositoryView {
                access_tokens: old(self)@.access_tokens.push(t),
                next_id: (old(self)@.next_id + 1) as u64,
                ..old(self)@
            }),
            r is Ok <==> old(self)@.access_token(token@) is None && old(self)@.next_id < u64::MAX,
    {
        proof { lemma_first_where(self.access_tokens@, access_token_is(token@)); }
        if self.access_token_position(token.as_str()).is_some() {
            return Err(RepositoryError::TokenCollision);
        }
        let id = self.alloc_id()?;
        let t = CompatAccessToken { id, session_id, token, created_at: now, expires_at };
        proof {
            lemma_push_fresh(self.access_tokens@, t, id);
            assert forall|j: int| 0 <= j < self.access_tokens@.len() implies self.access_tokens@[j].token@ != t.token@ by {
                assert(!access_token_is(t.token@)(self.access_tokens@[j]));
            }
        }
        self.access_tokens.push(t.duplicate());
        Ok(t)
    }

    /// The access token whose string is `token`, unless it has expired at `now`.
    pub fn find_access_token(&self, token: &str, now: Timestamp) -> (r: Option<CompatAccessToken>)
        ensures
            r == (match self@.access_token(token@) {
                Some(t) => if t.spec_is_valid(now) { Some(t) } else { None },
                None => None,
            }),
    {
        match self.access_token_position(token) {
            None => None,
            Some(i) => {
                if self.access_tokens[i].is_valid(now) {
                    Some(self.access_tokens[i].duplicate())
                } else {
                    None
                }
            },
        }
    }

    /// Adds a refresh token of session `session_id`, issued with access token
    /// `access_token_id`. A token whose string is taken already is refused.
    pub fn add_refresh_token(
        &mut self,
        session_id: u64,
        access_token_id: u64,
        token: String,
        now: Timestamp,
    ) -> (r: Result<CompatRefreshToken, RepositoryError>)
        requires
            old(self)@.wf(),
        ensures
            final(self)@.wf(),
            first_where(old(self)@.refresh_tokens, refresh_token_is(token@)) is Some
                ==> r == Err::<CompatRefreshToken, RepositoryError>(RepositoryError::TokenCollision) && final(self)@ == old(self)@,
            first_where(old(self)@.refresh_tokens, refresh_token_is(token@)) is None && old(self)@.next_id == u64::MAX
                ==> r == Err::<CompatRefreshToken, RepositoryError>(RepositoryError::IdsExhausted) && final(self)@ == old(self)@,
            r matches Ok(t) ==> t == (CompatRefreshToken {
                id: old(self)@.next_id,
                session_id,
                access_token_id,
                token,
                created_at: now,
            }) && final(self)@ == (RepositoryView {
                refresh_tokens: old(self)@.refresh_tokens.push(t),
                next_id: (old(self)@.next_id + 1) as u64,
                ..old(self)@
            }),
            r is Ok <==> first_where(old(self)@.refresh_tokens, refresh_token_is(token@)) is None && old(self)@.next_id < u64::MAX,
    {
        proof { lemma_first_where(self.refresh_tokens@, refresh_token_is(token@)); }
        if self.refresh_token_position(token.as_str()).is_some() {
            return Err(RepositoryError::TokenCollision);
        }
        let id = self.alloc_id()?;
        let t = CompatRefreshToken { id, session_id, access_token_id, token, created_at: now };
        proof {
            lemma_push_fresh(self.refresh_tokens@, t, id);
            assert forall|j: int| 0 <= j < self.refresh_tokens@.len() implies self.refresh_tokens@[j].token@ != t.token@ by {
                assert(!refresh_token_is(t.token@)(self.refresh_tokens@[j]));
            }
        }
        self.refresh_tokens.push(t.duplicate());
        Ok(t)
    }

    /// Starts a login-token handoff, pending until an SSO flow fulfils it.
    pub fn add_sso_login(&mut self, login_token: String, redirect_uri: String, now: Timestamp) -> (r: Result<CompatSsoLogin, RepositoryError>)
        requires
            old(self)@.wf(),
        ensures
            final(self)@.wf(),
            r is Err <==> old(self)@.next_id == u64::MAX,
            r matches Err(e) ==> e == RepositoryError::IdsExhausted && final(self)@ == old(self)@,
            r matches Ok(l) ==> l == (CompatSsoLogin {
                id: old(self)@.next_id,
                login_token,
                redirect_uri,
                created_at: now,
                state: CompatSsoLoginState::Pending,
            }) && final(self)@ == (RepositoryView {
                sso_logins: old(self)@.sso_logins.push(l),
                next_id: (old(self)@.next_id + 1) as u64,
                ..old(self)@
            }),
    {
        let id = self.alloc_id()?;
        let l = CompatSsoLogin { id, login_token, redirect_uri, created_at: now, state: CompatSsoLoginState::Pending };
        proof { lemma_push_fresh(self.sso_logins@, l, id); }
        self.sso_logins.push(l.duplicate());
        Ok(l)
    }

    /// The login-token handoff whose token is `token`.
    pub fn find_sso_login_by_token(&self, token: &str) -> (r: Option<CompatSsoLogin>)
        ensures
            r == self@.sso_login_by_token(token@),
    {
        let mut i: usize = 0;
        while i < self.sso_logins.len()
            invariant
                i <= self.sso_logins@.len(),
                forall|j: int| 0 <= j < i ==> !login_token_is(token@)(#[trigger] self.sso_logins@[j]),
            decreases self.sso_logins.len() - i,
        {
            if str_eq(self.sso_logins[i].login_token.as_str(), token) {
                proof { lemma_first_where_is(self.sso_logins@, login_token_is(token@), i as int); }
                return Some(self.sso_logins[i].duplicate());
            }
            i = i + 1;
        }
        proof { lemma_first_where(self.sso_logins@, login_token_is(token@)); }
        None
    }

    /// Fulfils the pending handoff `id` with session `session_id` at `now`.
    /// A handoff in another state is left as it is.
    pub fn fulfill_sso_login(&mut self, id: u64, session_id: u64, now: Timestamp) -> (r: Option<CompatSsoLogin>)
        requires
            old(self)@.wf(),
        ensures
            final(self)@.wf(),
            match index_of(old(self)@.sso_logins, id) {
                None => r is None && final(self)@ == old(self)@,
                Some(i) => {
                    let l = old(self)@.sso_logins[i];
                    let m = CompatSsoLogin { state: l.state.spec_fulfilled(now, session_id), ..l };
                    r == Some(m) && final(self)@ == (RepositoryView { sso_logins: old(self)@.sso_logins.update(i, m), ..old(self)@ })
                },
            },
    {
        proof { lemma_first_where(self.sso_logins@, has_id::<CompatSsoLogin>(id)); }
        match find_index(&self.sso_logins, id) {
            None => None,
            Some(i) => {
                let mut l = self.sso_logins[i].duplicate();
                l.state = l.state.fulfilled(now, session_id);
                self.sso_logins.set(i, l.duplicate());
                Some(l)
            },
        }
    }

    /// Marks the fulfilled handoff `id` as exchanged at `now`. A handoff in
    /// another state is left as it is.
    pub fn exchange_sso_login(&mut self, id: u64, now: Timestamp) -> (r: Option<CompatSsoLogin>)
        requires
            old(self)@.wf(),
        ensures
            final(self)@.wf(),
            final(self)@ == old(self)@.with_sso_exchanged(id, now),
            match index_of(old(self)@.sso_logins, id) {
                None => r is None && final(self)@ == old(self)@,
                Some(i) => {
                    let l = old(self)@.sso_logins[i];
                    let m = CompatSsoLogin { state: l.state.spec_exchanged(now), ..l };
                    r == Some(m)
                },
            },
    {
        proof { lemma_first_where(self.sso_logins@, has_id::<CompatSsoLogin>(id)); }
        match find_index(&self.sso_logins, id) {
            None => None,
            Some(i) => {
                let mut l = self.sso_logins[i].duplicate();
                l.state = l.state.exchanged(now);
                self.sso_logins.set(i, l.duplicate());
                Some(l)
            },
        }
    }

    /// Adds a pending device-code grant.
    pub fn add_device_code_grant(
        &mut self,
        client_id: u64,
        scope: String,
        user_code: String,
        device_code: String,
        now: Timestamp,
        expires_at: Timestamp,
    ) -> (r: Result<DeviceCodeGrant, RepositoryError>)
        requires
            old(self)@.wf(),
        ensures
            final(self)@.wf(),
            r is Err <==> old(self)@.next_id == u64::MAX,
            r matches Err(e) ==> e == RepositoryError::IdsExhausted && final(self)@ == old(self)@,
            r matches Ok(g) ==> g == (DeviceCodeGrant {
                id: old(self)@.next_id,
                client_id,
                scope,
                user_code,
                device_code,
                created_at: now,
                expires_at,
                state: DeviceCodeGrantState::Pending,
            }) && final(self)@ == (RepositoryView {
                device_grants: old(self)@.device_grants.push(g),
                next_id: (old(self)@.next_id + 1) as u64,
                ..old(self)@
            }),
    {
        let id = self.alloc_id()?;
        let g = DeviceCodeGrant {
            id,
            client_id,
            scope,
            user_code,
            device_code,
            created_at: now,
            expires_at,
            state: DeviceCodeGrantState::Pending,
        };
        proof { lemma_push_fresh(self.device_grants@, g, id); }
        self.device_grants.push(g.duplicate());
        Ok(g)
    }

    /// The device-code grant with identifier `id`.
    pub fn lookup_device_code_grant(&self, id: u64) -> (r: Option<DeviceCodeGrant>)
        ensures
            r == self@.device_grant(id),
    {
        lookup_in(&self.device_grants, id)
    }

    /// Stores the state of device-code grant `id`.
    pub fn set_device_code_grant_state(&mut self, id: u64, state: DeviceCodeGrantState) -> (r: Option<DeviceCodeGrant>)
        requires
            old(self)@.wf(),
        ensures
            final(self)@.wf(),
            match index_of(old(self)@.device_grants, id) {
                None => r is None && final(self)@ == old(self)@,
                Some(i) => {
                    let g = DeviceCodeGrant { state, ..old(self)@.device_grants[i] };
                    r == Some(g) && final(self)@ == (RepositoryView { device_grants: old(self)@.device_grants.update(i, g), ..old(self)@ })
                },
            },
    {
        proof { lemma_first_where(self.device_grants@, has_id::<DeviceCodeGrant>(id)); }
        match find_index(&self.device_grants, id) {
            None => None,
            Some(i) => {
                let mut g = self.device_grants[i].duplicate();
                g.state = state;
                self.device_grants.set(i, g.duplicate());
                Some(g)
            },
        }
    }

    /// Whether the device-sync lock of user `user_id` is held.
    pub fn is_sync_locked(&self, user_id: u64) -> (r: bool)
        ensures
            r == self@.sync_locks.contains(user_id),
    {
        let mut i: usize = 0;
        while i < self.sync_locks.len()
            invariant
                i <= self.sync_locks@.len(),
                forall|j: int| 0 <= j < i ==> self.sync_locks@[j] != user_id,
            decreases self.sync_locks.len() - i,
        {
            if self.sync_locks[i] == user_id {
                assert(self.sync_locks@[i as int] == user_id);
                return true;
            }
            i = i + 1;
        }
        false
    }

    /// Takes the device-sync lock of user `user_id` until the locks are
    /// released. Returns false, and changes nothing, when it is held already.
    pub fn acquire_lock_for_sync(&mut self, user_id: u64) -> (r: bool)
        requires
            old(self)@.wf(),
        ensures
            final(self)@.wf(),
            r == !old(self)@.sync_locks.contains(user_id),
            r ==> final(self)@ == (RepositoryView { sync_locks: old(self)@.sync_locks.push(user_id), ..old(self)@ }),
            !r ==> final(self)@ == old(self)@,
    {
        if self.is_sync_locked(user_id) {
            return false;
        }
        self.sync_locks.push(user_id);
        true
    }

    /// Releases every device-sync lock, at the end of a request.
    pub fn release_sync_locks(&mut self)
        requires
            old(self)@.wf(),
        ensures
            final(self)@ == (RepositoryView { sync_locks: Seq::empty(), ..old(self)@ }),
            final(self)@.wf(),
    {
        self.sync_locks = Vec::new();
        assert(self.sync_locks@ =~= Seq::<u64>::empty());
    }

    fn alloc_id(&mut self) -> (r: Result<u64, RepositoryError>)
        requires
            old(self)@.wf(),
        ensures
            old(self)@.next_id == u64::MAX ==> r == Err::<u64, RepositoryError>(RepositoryError::IdsExhausted) && final(self)@ == old(self)@,
            old(self)@.next_id < u64::MAX ==> r == Ok::<u64, RepositoryError>(old(self)@.next_id)
                && final(self)@ == (RepositoryView { next_id: (old(self)@.next_id + 1) as u64, ..old(self)@ }),
            final(self)@.wf(),
    {
        if self.next_id == u64::MAX {
            return Err(RepositoryError::IdsExhausted);
        }
        let id = self.next_id;
        self.next_id = self.next_id + 1;
        Ok(id)
    }
}

} // verus!
