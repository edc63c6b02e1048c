//! Administrative operations on users and compat sessions.

use vstd::prelude::*;

use crate::model::{index_of, CompatSession, Timestamp, User};
use crate::repository::{Repository, RepositoryView};

verus! {

/// The status a user list can be filtered on.
#[derive(Debug, Clone, Copy, PartialEq, Eq, Structural)]
pub enum UserStatus {
    Active,
    Locked,
}

impl UserStatus {
    /// The name of the status in query strings.
    pub open spec fn spec_str(self) -> Seq<char> {
        match self {
            UserStatus::Active => "active"@,
            UserStatus::Locked => "locked"@,
        }
    }

    /// The name of the status in query strings.
    pub fn as_str(&self) -> (r: &'static str)
        ensures
            r@ == self.spec_str(),
    {
        match self {
            UserStatus::Active => "active",
            UserStatus::Locked => "locked",
        }
    }
}

/// Filters of the user list.
#[derive(Debug, Clone, Copy, PartialEq, Eq, Structural)]
pub struct FilterParams {
    /// Keep users with (or without) the `admin` flag set.
    pub admin: Option<bool>,
    /// Keep users with the given status; all users when absent.
    pub status: Option<UserStatus>,
}

/// The text of a boolean.
pub open spec fn bool_str(b: bool) -> Seq<char> {
    if b { "true"@ } else { "false"@ }
}

impl FilterParams {
    /// The query string that selects these filters, empty when there is none.
    pub open spec fn spec_query(self) -> Seq<char> {
        let admin = match self.admin {
            Some(a) => "?"@ + "filter[admin]="@ + bool_str(a),
            None => Seq::empty(),
        };
        let status = match self.status {
            Some(s) => (if self.admin is Some { "&"@ } else { "?"@ }) + "filter[status]="@ + s.spec_str(),
            None => Seq::empty(),
        };
        admin + status
    }

    /// The query string that selects these filters.
    pub fn query_string(&self) -> (r: String)
        ensures
            r@ == self.spec_query(),
    {
        let mut out = String::new();
        let mut sep = "?";
        if let Some(admin) = self.admin {
            out.append(sep);
            out.append("filter[admin]=");
            out.append(if admin { "true" } else { "false" });
            sep = "&";
        }
        if let Some(status) = self.status {
            out.append(sep);
            out.append("filter[status]=");
            out.append(status.as_str());
        }
        assert(out@ =~= self.spec_query());
        out
    }

    /// Whether `user` passes the filters: `admin` on the admin flag, `active`
    /// for unlocked users, `locked` for locked ones.
    pub open spec fn spec_matches(self, user: User) -> bool {
        &&& match self.admin {
            Some(a) => user.can_request_admin == a,
            None => true,
        }
        &&& match self.status {
            Some(UserStatus::Active) => user.locked_at is None,
            Some(UserStatus::Locked) => user.locked_at is Some,
            None => true,
        }
    }

    /// Whether `user` passes the filters.
    pub fn matches(&self, user: &User) -> (r: bool)
        ensures
            r == self.spec_matches(*user),
    {
        let admin_ok = match self.admin {
            Some(a) => user.can_request_admin == a,
            None => true,
        };
        let status_ok = match self.status {
            Some(UserStatus::Active) => user.locked_at.is_none(),
            Some(UserStatus::Locked) => user.locked_at.is_some(),
            None => true,
        };
        admin_ok && status_ok
    }
}

/// The users of `users` that pass `filter`, in order.
pub open spec fn filtered(users: Seq<User>, filter: FilterParams) -> Seq<User> {
    users.filter(|u: User| filter.spec_matches(u))
}

/// Lists the users that pass `filter`, in the order they were added.
pub fn list_users(repo: &Repository, filter: &FilterParams) -> (r: Vec<User>)
    ensures
        r@ == filtered(repo@.users, *filter),
{
    let users = repo.all_users();
    let mut out: Vec<User> = Vec::new();
    let mut i: usize = 0;
    while i < users.len()
        invariant
            i <= users@.len(),
            users@ == repo@.users,
            out@ == filtered(users@.subrange(0, i as int), *filter),
        decreases users.len() - i,
    {
        proof {
            let s = users@.subrange(0, i + 1);
            assert(s.drop_last() =~= users@.subrange(0, i as int));
            reveal(Seq::filter);
        }
        if filter.matches(&users[i]) {
            out.push(users[i].clone());
        }
        i = i + 1;
    }
    assert(users@.subrange(0, i as int) =~= users@);
    out
}

/// The body of a set-admin request.
#[derive(Debug, Clone, Copy, PartialEq, Eq, Structural)]
pub struct Request {
    /// Whether the user can request admin privileges.
    pub admin: bool,
}

/// Why setting the admin flag failed.
#[derive(Debug, Clone, Copy, PartialEq, Eq, Structural)]
pub enum SetAdminError {
    /// No user has this identifier.
    NotFound(u64),
}

/// Sets whether user `id` can request admin privileges.
pub fn set_admin(repo: &mut Repository, id: u64, request: Request) -> (r: Result<User, SetAdminError>)
    requires
        old(repo)@.wf(),
    ensures
        final(repo)@.wf(),
        match index_of(old(repo)@.users, id) {
            None => r == Err::<User, SetAdminError>(SetAdminError::NotFound(id)) && final(repo)@ == old(repo)@,
            Some(i) => {
                let v = User { can_request_admin: request.admin, ..old(repo)@.users[i] };
                r == Ok::<User, SetAdminError>(v)
                    && final(repo)@ == (RepositoryView { users: old(repo)@.users.update(i, v), ..old(repo)@ })
            },
        },
{
    match repo.set_can_request_admin(id, request.admin) {
        Some(u) => Ok(u),
        None => Err(SetAdminError::NotFound(id)),
    }
}

/// Who asks to end a session.
#[derive(Debug, Clone, Copy, PartialEq, Eq, Structural)]
pub struct SessionRequester {
    /// The user making the request, if any.
    pub user_id: Option<u64>,
    /// Whether the request carries admin rights.
    pub is_admin: bool,
}

impl SessionRequester {
    /// Whether the requester owns `session` or is an admin.
    pub open spec fn spec_is_owner_or_admin(self, session: CompatSession) -> bool {
        self.is_admin || self.user_id == Some(session.user_id)
    }

    /// Whether the requester owns `session` or is an admin.
    pub fn is_owner_or_admin(&self, session: &CompatSession) -> (r: bool)
        ensures
            r == self.spec_is_owner_or_admin(*session),
    {
        if self.is_admin {
            return true;
        }
        match self.user_id {
            Some(u) => u == session.user_id,
            None => false,
        }
    }
}

/// The input of ending a compat session.
#[derive(Debug, Clone, Copy, PartialEq, Eq, Structural)]
pub struct EndCompatSessionInput {
    /// The identifier of the session to end.
    pub compat_session_id: u64,
}

/// The result of ending a compat session.
#[derive(Debug, Clone)]
pub enum EndCompatSessionPayload {
    /// No session visible to the requester has the identifier.
    NotFound,
    /// The session, ended; the user's devices are to be synced.
    Ended { session: CompatSession, user: User },
}

/// The status of ending a compat session.
#[derive(Debug, Clone, Copy, PartialEq, Eq, Structural)]
pub enum EndCompatSessionStatus {
    Ended,
    NotFound,
}

impl EndCompatSessionPayload {
    /// The status of the mutation.
    pub fn status(&self) -> (r: EndCompatSessionStatus)
        ensures
            (r == EndCompatSessionStatus::Ended) == (self is Ended),
    {
        match self {
            EndCompatSessionPayload::Ended { .. } => EndCompatSessionStatus::Ended,
            EndCompatSessionPayload::NotFound => EndCompatSessionStatus::NotFound,
        }
    }

    /// The ended session, if any.
    pub fn compat_session(&self) -> (r: Option<CompatSession>)
        ensures
            match self {
                EndCompatSessionPayload::Ended { session, .. } => r == Some(*session),
                EndCompatSessionPayload::NotFound => r is None,
            },
    {
        match self {
            EndCompatSessionPayload::Ended { session, .. } => Some(session.clone()),
            EndCompatSessionPayload::NotFound => None,
        }
    }
}

/// The user of a session could not be loaded.
#[derive(Debug, Clone, Copy, PartialEq, Eq, Structural)]
pub struct MissingUserError {
    pub user_id: u64,
}

/// The compat-session mutations of the API.
#[derive(Debug, Clone, Copy, Default)]
pub struct CompatSessionMutations {}

impl CompatSessionMutations {
    /// Ends compat session `session_id` at `now`, when the requester owns it
    /// or is an admin; to anyone else it does not exist.
    pub fn end_compat_session(
        &self,
        repo: &mut Repository,
        requester: SessionRequester,
        input: EndCompatSessionInput,
        now: Timestamp,
    ) -> (r: Result<EndCompatSessionPayload, MissingUserError>)
        requires
            old(repo)@.wf(),
        ensures
            final(repo)@.wf(),
            match old(repo)@.session(input.compat_session_id) {
                None => r matches Ok(EndCompatSessionPayload::NotFound) && final(repo)@ == old(repo)@,
                Some(s) => if !requester.spec_is_owner_or_admin(s) {
                    r matches Ok(EndCompatSessionPayload::NotFound) && final(repo)@ == old(repo)@
                } else {
                    match old(repo)@.user(s.user_id) {
                        None => r == Err::<EndCompatSessionPayload, MissingUserError>(MissingUserError { user_id: s.user_id })
                            && final(repo)@ == old(repo)@,
                        Some(u) => {
                            let t = if s.finished_at is None { CompatSession { finished_at: Some(now), ..s } } else { s };
                            (r matches Ok(EndCompatSessionPayload::Ended { session, user }) && session == t && user == u)
                                && final(repo)@.session(input.compat_session_id) == Some(t)
                        },
                    }
                },
            },
    {
        let session_id = input.compat_session_id;
        let session = match repo.lookup_compat_session(session_id) {
            None => {
                return Ok(EndCompatSessionPayload::NotFound);
            },
            Some(s) => s,
        };
        if !requester.is_owner_or_admin(&session) {
            return Ok(EndCompatSessionPayload::NotFound);
        }
        let user = match repo.lookup_user(session.user_id) {
            None => {
                return Err(MissingUserError { user_id: session.user_id });
            },
            Some(u) => u,
        };
        let ghost before = repo@;
        let ended = repo.finish_compat_session(session_id, now);
        proof {
            let i = index_of(before.sessions, session_id)->Some_0;
            crate::model::lemma_first_where(before.sessions, crate::model::has_id::<CompatSession>(session_id));
            let t = repo@.sessions;
            assert forall|j: int| 0 <= j < before.sessions.len() implies
                crate::model::has_id::<CompatSession>(session_id)(#[trigger] before.sessions[j])
                    == crate::model::has_id::<CompatSession>(session_id)(t[j]) by {}
            crate::model::lemma_first_where_same(before.sessions, t, crate::model::has_id::<CompatSession>(session_id));
        }
        match ended {
            Some(s) => Ok(EndCompatSessionPayload::Ended { session: s, user }),
            None => Ok(EndCompatSessionPayload::NotFound),
        }
    }
}

} // verus!
