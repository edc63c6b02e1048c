//! Entities of the session and token lifecycle. Timestamps are milliseconds
//! since the Unix epoch; identifiers are allocated by the repository.

use vstd::prelude::*;

verus! {

/// A timestamp, in milliseconds since the Unix epoch.
pub type Timestamp = i64;

/// A record stored in the repository under an identifier.
pub trait Record: Sized {
    spec fn spec_id(&self) -> u64;

    fn id(&self) -> (r: u64)
        ensures
            r == self.spec_id(),
    ;

    /// An equal copy of the record.
    fn duplicate(&self) -> (r: Self)
        ensures
            r == *self,
    ;
}

/// The first index of `s` whose element satisfies `p`, if any.
pub open spec fn first_where<T>(s: Seq<T>, p: spec_fn(T) -> bool) -> Option<int>
    decreases s.len(),
{
    if s.len() == 0 {
        None
    } else {
        match first_where(s.drop_last(), p) {
            Some(i) => Some(i),
            None => if p(s.last()) {
                Some(s.len() - 1)
            } else {
                None
            },
        }
    }
}

/// What `first_where` returns, stated by quantifiers.
pub proof fn lemma_first_where<T>(s: Seq<T>, p: spec_fn(T) -> bool)
    ensures
        first_where(s, p) matches Some(i) ==> 0 <= i < s.len() && p(s[i])
            && forall|j: int| 0 <= j < i ==> !p(#[trigger] s[j]),
        first_where(s, p) is None <==> forall|j: int| 0 <= j < s.len() ==> !p(#[trigger] s[j]),
    decreases s.len(),
{
    if s.len() > 0 {
        lemma_first_where(s.drop_last(), p);
        assert forall|j: int| 0 <= j < s.len() - 1 implies s.drop_last()[j] == s[j] by {}
    }
}

/// Characterises `first_where` by quantifiers, in the other direction.
pub proof fn lemma_first_where_is<T>(s: Seq<T>, p: spec_fn(T) -> bool, i: int)
    requires
        0 <= i < s.len(),
        p(s[i]),
        forall|j: int| 0 <= j < i ==> !p(#[trigger] s[j]),
    ensures
        first_where(s, p) == Some(i),
{
    lemma_first_where(s, p);
    match first_where(s, p) {
        Some(k) => {
            if k < i {
                assert(!p(s[k]));
            } else if k > i {
                assert(!p(s[i]));
            }
        },
        None => {
            assert(!p(s[i]));
        },
    }
}

/// `first_where` depends only on which elements satisfy the predicate.
pub proof fn lemma_first_where_same<T>(s: Seq<T>, t: Seq<T>, p: spec_fn(T) -> bool)
    requires
        s.len() == t.len(),
        forall|j: int| 0 <= j < s.len() ==> p(#[trigger] s[j]) == p(t[j]),
    ensures
        first_where(s, p) == first_where(t, p),
    decreases s.len(),
{
    if s.len() > 0 {
        assert forall|j: int| 0 <= j < s.len() - 1 implies p(#[trigger] s.drop_last()[j]) == p(t.drop_last()[j]) by {
            assert(s.drop_last()[j] == s[j]);
            assert(t.drop_last()[j] == t[j]);
        }
        lemma_first_where_same(s.drop_last(), t.drop_last(), p);
    }
}

/// `first_where` after appending one element.
pub proof fn lemma_first_where_push<T>(s: Seq<T>, x: T, p: spec_fn(T) -> bool)
    ensures
        first_where(s.push(x), p) == match first_where(s, p) {
            Some(i) => Some(i),
            None => if p(x) {
                Some(s.len() as int)
            } else {
                None
            },
        },
{
    assert(s.push(x).drop_last() =~= s);
}

/// The first index of `s` whose record has identifier `id`, if any.
pub open spec fn index_of<T: Record>(s: Seq<T>, id: u64) -> Option<int> {
    first_where(s, has_id(id))
}

/// The predicate of having identifier `id`.
pub open spec fn has_id<T: Record>(id: u64) -> spec_fn(T) -> bool {
    |x: T| x.spec_id() == id
}

/// Every record of `s` has an identifier below `n`.
pub open spec fn ids_below<T: Record>(s: Seq<T>, n: u64) -> bool {
    forall|i: int| 0 <= i < s.len() ==> (#[trigger] s[i]).spec_id() < n
}

/// Appending a record with identifier `n` to records below `n` keeps earlier
/// lookups and finds the new one under `n`.
pub proof fn lemma_push_fresh<T: Record>(s: Seq<T>, x: T, n: u64)
    requires
        ids_below(s, n),
        x.spec_id() == n,
    ensures
        index_of(s.push(x), n) == Some(s.len() as int),
        forall|id: u64| id != n ==> index_of(s.push(x), id) == #[trigger] index_of(s, id),
        n < u64::MAX ==> ids_below(s.push(x), (n + 1) as u64),
{
    assert(s.push(x).drop_last() =~= s);
    lemma_first_where(s, has_id(n));
    assert forall|id: u64| id != n implies index_of(s.push(x), id) == #[trigger] index_of(s, id) by {
        assert(s.push(x).drop_last() =~= s);
    }
}

/// Finds the first record of `v` with identifier `id`.
pub fn find_index<T: Record>(v: &Vec<T>, id: u64) -> (r: Option<usize>)
    ensures
        r matches Some(i) ==> index_of(v@, id) == Some(i as int),
        r is None ==> index_of(v@, id) is None,
{
    let mut i: usize = 0;
    while i < v.len()
        invariant
            i <= v@.len(),
            forall|j: int| 0 <= j < i ==> v@[j].spec_id() != id,
        decreases v.len() - i,
    {
        if v[i].id() == id {
            proof { lemma_first_where_is(v@, has_id::<T>(id), i as int); }
            return Some(i);
        }
        i = i + 1;
    }
    proof { lemma_first_where(v@, has_id::<T>(id)); }
    None
}

/// A copy of an optional string.
pub fn clone_opt_string(o: &Option<String>) -> (r: Option<String>)
    ensures
        r == *o,
{
    match o {
        Some(x) => Some(x.clone()),
        None => None,
    }
}

/// A user of the service.
#[derive(Debug)]
pub struct User {
    pub id: u64,
    pub username: String,
    pub sub: String,
    pub created_at: Timestamp,
    pub locked_at: Option<Timestamp>,
    pub deactivated_at: Option<Timestamp>,
    pub can_request_admin: bool,
}

impl User {
    /// A user is valid when it is neither locked nor deactivated.
    pub open spec fn spec_is_valid(&self) -> bool {
        self.locked_at is None && self.deactivated_at is None
    }

    /// Whether the user can log in.
    pub fn is_valid(&self) -> (r: bool)
        ensures
            r == self.spec_is_valid(),
    {
        self.locked_at.is_none() && self.deactivated_at.is_none()
    }
}

impl Record for User {
    open spec fn spec_id(&self) -> u64 {
        self.id
    }

    fn id(&self) -> (r: u64) {
        self.id
    }

    fn duplicate(&self) -> (r: Self) {
        self.clone()
    }
}

/// A password hash of a user. The most recent one of a user is the active one.
#[derive(Debug)]
pub struct UserPassword {
    pub id: u64,
    pub user_id: u64,
    pub version: u16,
    pub hashed_password: String,
    pub upgraded_from_id: Option<u64>,
    pub created_at: Timestamp,
}

impl Record for UserPassword {
    open spec fn spec_id(&self) -> u64 {
        self.id
    }

    fn id(&self) -> (r: u64) {
        self.id
    }

    fn duplicate(&self) -> (r: Self) {
        self.clone()
    }
}

/// A session opened through the legacy login surface.
#[derive(Debug)]
pub struct CompatSession {
    pub id: u64,
    pub user_id: u64,
    pub device: Option<String>,
    pub human_name: Option<String>,
    pub created_at: Timestamp,
    pub is_synapse_admin: bool,
    pub user_agent: Option<String>,
    pub last_active_at: Option<Timestamp>,
    pub last_active_ip: Option<String>,
    pub finished_at: Option<Timestamp>,
}

impl CompatSession {
    /// Whether the session is still active.
    pub fn is_valid(&self) -> (r: bool)
        ensures
            r == (self.finished_at is None),
    {
        self.finished_at.is_none()
    }
}

impl Record for CompatSession {
    open spec fn spec_id(&self) -> u64 {
        self.id
    }

    fn id(&self) -> (r: u64) {
        self.id
    }

    fn duplicate(&self) -> (r: Self) {
        self.clone()
    }
}

/// A bearer access token of a compat session.
#[derive(Debug)]
pub struct CompatAccessToken {
    pub id: u64,
    pub session_id: u64,
    pub token: String,
    pub created_at: Timestamp,
    pub expires_at: Option<Timestamp>,
}

impl CompatAccessToken {
    /// An access token is usable at `now` when it has no expiry or expires after `now`.
    pub open spec fn spec_is_valid(&self, now: Timestamp) -> bool {
        match self.expires_at {
            None => true,
            Some(e) => now < e,
        }
    }

    /// Whether the token is usable at `now`.
    pub fn is_valid(&self, now: Timestamp) -> (r: bool)
        ensures
            r == self.spec_is_valid(now),
    {
        match self.expires_at {
            None => true,
            Some(e) => now < e,
        }
    }
}

impl Record for CompatAccessToken {
    open spec fn spec_id(&self) -> u64 {
        self.id
    }

    fn id(&self) -> (r: u64) {
        self.id
    }

    fn duplicate(&self) -> (r: Self) {
        self.clone()
    }
}

/// A refresh token of a compat session, issued alongside an access token.
#[derive(Debug)]
pub struct CompatRefreshToken {
    pub id: u64,
    pub session_id: u64,
    pub access_token_id: u64,
    pub token: String,
    pub created_at: Timestamp,
}

impl Record for CompatRefreshToken {
    open spec fn spec_id(&self) -> u64 {
        self.id
    }

    fn id(&self) -> (r: u64) {
        self.id
    }

    fn duplicate(&self) -> (r: Self) {
        self.clone()
    }
}

impl Clone for User {
    fn clone(&self) -> (r: Self)
        ensures
            r == *self,
    {
        User {
            id: self.id,
            username: self.username.clone(),
            sub: self.sub.clone(),
            created_at: self.created_at,
            locked_at: self.locked_at,
            deactivated_at: self.deactivated_at,
            can_request_admin: self.can_request_admin,
        }
    }
}

impl Clone for UserPassword {
    fn clone(&self) -> (r: Self)
        ensures
            r == *self,
    {
        UserPassword {
            id: self.id,
            user_id: self.user_id,
            version: self.version,
            hashed_password: self.hashed_password.clone(),
            upgraded_from_id: self.upgraded_from_id,
            created_at: self.created_at,
        }
    }
}

impl Clone for CompatSession {
    fn clone(&self) -> (r: Self)
        ensures
            r == *self,
    {
        CompatSession {
            id: self.id,
            user_id: self.user_id,
            device: clone_opt_string(&self.device),
            human_name: clone_opt_string(&self.human_name),
            created_at: self.created_at,
            is_synapse_admin: self.is_synapse_admin,
            user_agent: clone_opt_string(&self.user_agent),
            last_active_at: self.last_active_at,
            last_active_ip: clone_opt_string(&self.last_active_ip),
            finished_at: self.finished_at,
        }
    }
}

impl Clone for CompatAccessToken {
    fn clone(&self) -> (r: Self)
        ensures
            r == *self,
    {
        CompatAccessToken {
            id: self.id,
            session_id: self.session_id,
            token: self.token.clone(),
            created_at: self.created_at,
            expires_at: self.expires_at,
        }
    }
}

impl Clone for CompatRefreshToken {
    fn clone(&self) -> (r: Self)
        ensures
            r == *self,
    {
        CompatRefreshToken {
            id: self.id,
            session_id: self.session_id,
            access_token_id: self.access_token_id,
            token: self.token.clone(),
            created_at: self.created_at,
        }
    }
}

} // verus!
