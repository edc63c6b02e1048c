//! Rules of the one-time import of users, devices and tokens from a legacy
//! home server.

use vstd::prelude::*;

use crate::matrix::{localpart, localpart_of};
use crate::model::{first_where, lemma_first_where, lemma_first_where_is, Timestamp};
use crate::text::{occurs_at, starts_with, str_eq};

verus! {

/// Errors of the import.
#[derive(Debug, Clone, PartialEq, Eq)]
pub enum Error {
    /// Reading the legacy database failed.
    Synapse { context: String },
    /// Writing the new database failed.
    Mas { context: String },
    /// A user identifier is not on the server being imported.
    ExtractLocalpart { user: String },
    /// A row names a user that was not imported.
    MissingUserFromDependentTable { table: String, user: String },
    /// No upstream provider is mapped to a legacy auth provider.
    MissingAuthProviderMapping { synapse_id: String, user: String },
}

/// Flags of an imported user, as bits.
#[derive(Debug, Clone, Copy, PartialEq, Eq, Structural)]
pub struct UserFlags {
    pub bits: u8,
}

/// The user was an admin on the legacy server.
pub const IS_SYNAPSE_ADMIN: u8 = 1;

/// The user was deactivated.
pub const IS_DEACTIVATED: u8 = 2;

/// The user was a guest.
pub const IS_GUEST: u8 = 4;

impl UserFlags {
    /// The flags of a user with the given attributes.
    pub fn new(admin: bool, deactivated: bool, guest: bool) -> (r: UserFlags)
        ensures
            r.spec_is_synapse_admin() == admin,
            r.spec_is_deactivated() == deactivated,
            r.spec_is_guest() == guest,
    {
        let a: u8 = if admin { IS_SYNAPSE_ADMIN } else { 0 };
        let d: u8 = if deactivated { IS_DEACTIVATED } else { 0 };
        let g: u8 = if guest { IS_GUEST } else { 0 };
        let bits: u8 = a | d | g;
        assert(a == 0 || a == 1 ==> ((a | d | g) & 1 != 0) == (a == 1)) by (bit_vector)
            requires d == 0 || d == 2, g == 0 || g == 4;
        assert(d == 0 || d == 2 ==> ((a | d | g) & 2 != 0) == (d == 2)) by (bit_vector)
            requires a == 0 || a == 1, g == 0 || g == 4;
        assert(g == 0 || g == 4 ==> ((a | d | g) & 4 != 0) == (g == 4)) by (bit_vector)
            requires a == 0 || a == 1, d == 0 || d == 2;
        UserFlags { bits }
    }

    pub open spec fn spec_is_synapse_admin(self) -> bool {
        self.bits & IS_SYNAPSE_ADMIN != 0
    }

    pub open spec fn spec_is_deactivated(self) -> bool {
        self.bits & IS_DEACTIVATED != 0
    }

    pub open spec fn spec_is_guest(self) -> bool {
        self.bits & IS_GUEST != 0
    }

    /// Whether the user was deactivated.
    pub fn is_deactivated(self) -> (r: bool)
        ensures
            r == self.spec_is_deactivated(),
    {
        self.bits & IS_DEACTIVATED != 0
    }

    /// Whether the user was a guest.
    pub fn is_guest(self) -> (r: bool)
        ensures
            r == self.spec_is_guest(),
    {
        self.bits & IS_GUEST != 0
    }

    /// Whether the user was an admin on the legacy server.
    pub fn is_synapse_admin(self) -> (r: bool)
        ensures
            r == self.spec_is_synapse_admin(),
    {
        self.bits & IS_SYNAPSE_ADMIN != 0
    }

    /// Devices and tokens of deactivated users and of guests are not imported.
    pub fn skips_sessions(self) -> (r: bool)
        ensures
            r == (self.spec_is_deactivated() || self.spec_is_guest()),
    {
        self.is_deactivated() || self.is_guest()
    }
}

/// Whether a localpart looks like one of an application service user: it
/// starts with an underscore.
pub fn is_likely_appservice(localpart: &str) -> (r: bool)
    ensures
        r == occurs_at(localpart@, "_"@, 0),
{
    starts_with(localpart, "_")
}

/// A user of the legacy server, as read from its database.
#[derive(Debug, Clone)]
pub struct SynapseUser {
    /// The full user identifier, `@localpart:server`.
    pub name: String,
    pub password_hash: Option<String>,
    pub admin: bool,
    pub deactivated: bool,
    pub is_guest: bool,
    pub creation_ts: Timestamp,
}

/// A user to write into the new database.
#[derive(Debug, Clone)]
pub struct MasNewUser {
    pub user_id: u128,
    pub username: String,
    pub created_at: Timestamp,
    pub locked_at: Option<Timestamp>,
    pub can_request_admin: bool,
    pub is_guest: bool,
}

/// A password hash to write into the new database.
#[derive(Debug, Clone)]
pub struct MasNewUserPassword {
    pub user_password_id: u128,
    pub user_id: u128,
    pub hashed_password: String,
    pub created_at: Timestamp,
}

/// Turns a legacy user into the new user and its password, with the
/// identifiers drawn for them. Deactivated users are locked from their
/// creation time.
pub fn transform_user(
    user: &SynapseUser,
    server_name: &str,
    user_id: u128,
    password_id: u128,
) -> (r: Result<(MasNewUser, Option<MasNewUserPassword>), Error>)
    ensures
        localpart_of(server_name@, user.name@) is None <==> r is Err,
        r matches Err(e) ==> (e matches Error::ExtractLocalpart { user: u } && u@ == user.name@),
        r matches Ok((u, p)) ==> {
            &&& Some(u.username@) == localpart_of(server_name@, user.name@)
            &&& u.user_id == user_id
            &&& u.created_at == user.creation_ts
            &&& u.locked_at == (if user.deactivated { Some(user.creation_ts) } else { None })
            &&& u.can_request_admin == user.admin
            &&& u.is_guest == user.is_guest
            &&& (user.password_hash is None <==> p is None)
            &&& (p matches Some(pw) ==> pw.user_password_id == password_id && pw.user_id == user_id
                && Some(pw.hashed_password) == user.password_hash && pw.created_at == user.creation_ts)
        },
{
    let username = match localpart(server_name, user.name.as_str()) {
        Some(l) => l.to_owned(),
        None => {
            return Err(Error::ExtractLocalpart { user: user.name.clone() });
        },
    };
    let new_user = MasNewUser {
        user_id,
        username,
        created_at: user.creation_ts,
        locked_at: if user.deactivated { Some(user.creation_ts) } else { None },
        can_request_admin: user.admin,
        is_guest: user.is_guest,
    };
    let password = match &user.password_hash {
        Some(h) => Some(MasNewUserPassword {
            user_password_id: password_id,
            user_id,
            hashed_password: h.clone(),
            created_at: user.creation_ts,
        }),
        None => None,
    };
    Ok((new_user, password))
}

/// What the import knows of a user it wrote.
#[derive(Debug, Clone, Copy, PartialEq, Eq, Structural)]
pub struct UserInfo {
    pub mas_user_id: u128,
    pub flags: UserFlags,
}

/// A user imported under a localpart.
#[derive(Debug)]
pub struct ImportedUser {
    pub localpart: String,
    pub info: UserInfo,
}

/// The predicate of the user imported under `l`.
pub open spec fn localpart_is(l: Seq<char>) -> spec_fn(ImportedUser) -> bool {
    |u: ImportedUser| u.localpart@ == l
}

/// The user imported under `l`, if any.
pub open spec fn imported(users: Seq<ImportedUser>, l: Seq<char>) -> Option<UserInfo> {
    match first_where(users, localpart_is(l)) {
        Some(i) => Some(users[i].info),
        None => None,
    }
}

/// What a row naming a user leads to.
pub enum RowUser {
    /// The user was imported.
    Found(UserInfo),
    /// An application service user that was not imported: skip the row.
    Skip,
    /// The identifier is not one of the server being imported.
    BadLocalpart,
    /// The user was not imported.
    Missing,
}

/// What a row that names user `full_id` of the legacy server leads to.
pub open spec fn row_user_spec(users: Seq<ImportedUser>, server_name: Seq<char>, full_id: Seq<char>) -> RowUser {
    match localpart_of(server_name, full_id) {
        None => RowUser::BadLocalpart,
        Some(l) => match imported(users, l) {
            Some(info) => RowUser::Found(info),
            None => if occurs_at(l, "_"@, 0) {
                RowUser::Skip
            } else {
                RowUser::Missing
            },
        },
    }
}

/// Finds the imported user a row of `table` names, by its full identifier.
/// Rows of application service users that were not imported are skipped
/// (`Ok(None)`).
pub fn row_user(users: &Vec<ImportedUser>, server_name: &str, full_id: &str, table: &str) -> (r: Result<Option<UserInfo>, Error>)
    ensures
        match row_user_spec(users@, server_name@, full_id@) {
            RowUser::Found(info) => r == Ok::<Option<UserInfo>, Error>(Some(info)),
            RowUser::Skip => r == Ok::<Option<UserInfo>, Error>(None),
            RowUser::BadLocalpart => r matches Err(Error::ExtractLocalpart { user }) && user@ == full_id@,
            RowUser::Missing => r matches Err(Error::MissingUserFromDependentTable { table: t, user })
                && t@ == table@ && user@ == full_id@,
        },
{
    let l = match localpart(server_name, full_id) {
        Some(l) => l,
        None => {
            return Err(Error::ExtractLocalpart { user: full_id.to_owned() });
        },
    };
    let mut i: usize = 0;
    while i < users.len()
        invariant
            i <= users@.len(),
            localpart_of(server_name@, full_id@) == Some(l@),
            forall|j: int| 0 <= j < i ==> !localpart_is(l@)(#[trigger] users@[j]),
        decreases users.len() - i,
    {
        if str_eq(users[i].localpart.as_str(), l) {
            proof { lemma_first_where_is(users@, localpart_is(l@), i as int); }
            return Ok(Some(users[i].info));
        }
        i = i + 1;
    }
    proof { lemma_first_where(users@, localpart_is(l@)); }
    if is_likely_appservice(l) {
        Ok(None)
    } else {
        Err(Error::MissingUserFromDependentTable { table: table.to_owned(), user: full_id.to_owned() })
    }
}

} // verus!
