//! An in-memory home server, for tests and local runs: it never fails on
//! the network and keeps users and devices in memory.

use vstd::prelude::*;

use crate::matrix::{mxid, mxid_of};
use crate::model::{first_where, lemma_first_where, lemma_first_where_is};
use crate::text::str_eq;

verus! {

/// The bearer token the mock home server accepts.
pub open spec fn valid_bearer_token() -> Seq<char> {
    "mock_homeserver_bearer_token"@
}

/// What a provisioning request does to one field.
#[derive(Debug, Clone, PartialEq, Eq)]
pub enum FieldAction<T> {
    DoNothing,
    Replace(T),
    Unset,
}

/// A request to create or update a user on the home server.
#[derive(Debug, Clone)]
pub struct ProvisionRequest {
    pub localpart: String,
    pub sub: String,
    pub displayname: FieldAction<String>,
    pub avatar_url: FieldAction<String>,
    pub emails: FieldAction<Vec<String>>,
}

impl ProvisionRequest {
    /// A request that changes no field.
    pub fn new(localpart: String, sub: String) -> (r: ProvisionRequest)
        ensures
            r.localpart == localpart,
            r.sub == sub,
            r.displayname is DoNothing,
            r.avatar_url is DoNothing,
            r.emails is DoNothing,
    {
        ProvisionRequest {
            localpart,
            sub,
            displayname: FieldAction::DoNothing,
            avatar_url: FieldAction::DoNothing,
            emails: FieldAction::DoNothing,
        }
    }

    /// Sets the display name.
    pub fn set_displayname(self, displayname: String) -> (r: ProvisionRequest)
        ensures
            r == (ProvisionRequest { displayname: FieldAction::Replace(displayname), ..self }),
    {
        ProvisionRequest { displayname: FieldAction::Replace(displayname), ..self }
    }

    /// Sets the avatar URL.
    pub fn set_avatar_url(self, avatar_url: String) -> (r: ProvisionRequest)
        ensures
            r == (ProvisionRequest { avatar_url: FieldAction::Replace(avatar_url), ..self }),
    {
        ProvisionRequest { avatar_url: FieldAction::Replace(avatar_url), ..self }
    }

    /// Sets the email addresses.
    pub fn set_emails(self, emails: Vec<String>) -> (r: ProvisionRequest)
        ensures
            r == (ProvisionRequest { emails: FieldAction::Replace(emails), ..self }),
    {
        ProvisionRequest { emails: FieldAction::Replace(emails), ..self }
    }
}

/// What the home server tells about a user.
#[derive(Debug, Clone, PartialEq, Eq)]
pub struct MatrixUser {
    pub displayname: Option<String>,
    pub avatar_url: Option<String>,
    pub deactivated: bool,
}

/// Why the mock home server refused a call.
#[derive(Debug, Clone, Copy, PartialEq, Eq, Structural)]
pub enum MockError {
    /// No user has this identifier.
    UserNotFound,
    /// The user has no such device.
    DeviceNotFound,
    /// The user was provisioned with another subject.
    SubjectMismatch,
}

/// A user of the mock home server.
#[derive(Debug)]
pub struct MockUser {
    pub mxid: String,
    pub sub: String,
    pub avatar_url: Option<String>,
    pub displayname: Option<String>,
    pub devices: Vec<String>,
    pub emails: Option<Vec<String>>,
    pub cross_signing_reset_allowed: bool,
    pub deactivated: bool,
}

/// The views of a sequence of strings.
pub open spec fn views(s: Seq<String>) -> Seq<Seq<char>> {
    s.map_values(|x: String| x@)
}

/// The predicate of the user whose identifier is `m`.
pub open spec fn mxid_is(m: Seq<char>) -> spec_fn(MockUser) -> bool {
    |u: MockUser| u.mxid@ == m
}

/// The mock home server's contents.
pub struct MockView {
    pub homeserver: Seq<char>,
    pub users: Seq<MockUser>,
    pub reserved: Seq<Seq<char>>,
}

impl MockView {
    /// The position of the user with localpart `localpart`.
    pub open spec fn index(self, localpart: Seq<char>) -> Option<int> {
        first_where(self.users, mxid_is(mxid_of(self.homeserver, localpart)))
    }

    /// The user with localpart `localpart`.
    pub open spec fn user(self, localpart: Seq<char>) -> Option<MockUser> {
        match self.index(localpart) {
            Some(i) => Some(self.users[i]),
            None => None,
        }
    }

    /// The mock after replacing the user at `localpart` by `u`.
    pub open spec fn with_user(self, localpart: Seq<char>, u: MockUser) -> MockView {
        MockView { users: self.users.update(self.index(localpart)->Some_0, u), ..self }
    }
}

/// `new` is `old` with the user at `localpart` changed as `p` relates the
/// user before and after; nothing changes when there is no such user.
pub open spec fn edits_user(old: MockView, new: MockView, localpart: Seq<char>, p: spec_fn(MockUser, MockUser) -> bool) -> bool {
    match old.index(localpart) {
        None => new == old,
        Some(i) => new.homeserver == old.homeserver && new.reserved == old.reserved
            && new.users.len() == old.users.len()
            && (forall|j: int| 0 <= j < old.users.len() && j != i ==> new.users[j] == old.users[j])
            && p(old.users[i], new.users[i]),
    }
}

/// A string field after `action`.
pub open spec fn field_after(current: Option<String>, action: FieldAction<String>) -> Option<String> {
    match action {
        FieldAction::DoNothing => current,
        FieldAction::Replace(v) => Some(v),
        FieldAction::Unset => None,
    }
}

/// The strings of an optional list.
pub open spec fn opt_strings(o: Option<Vec<String>>) -> Option<Seq<String>> {
    match o {
        Some(v) => Some(v@),
        None => None,
    }
}

/// The email list after `action`.
pub open spec fn emails_after(current: Option<Seq<String>>, action: FieldAction<Vec<String>>) -> Option<Seq<String>> {
    match action {
        FieldAction::DoNothing => current,
        FieldAction::Replace(v) => Some(v@),
        FieldAction::Unset => None,
    }
}

/// `b` is `a` with the profile fields of `request` applied.
pub open spec fn applied(a: MockUser, b: MockUser, request: ProvisionRequest) -> bool {
    &&& b == (MockUser { displayname: b.displayname, avatar_url: b.avatar_url, emails: b.emails, ..a })
    &&& b.displayname == field_after(a.displayname, request.displayname)
    &&& b.avatar_url == field_after(a.avatar_url, request.avatar_url)
    &&& opt_strings(b.emails) == emails_after(opt_strings(a.emails), request.emails)
}

fn apply_request(u: &mut MockUser, request: &ProvisionRequest)
    ensures
        applied(*old(u), *final(u), *request),
{
    match &request.displayname {
        FieldAction::DoNothing => {},
        FieldAction::Replace(d) => {
            u.displayname = Some(d.clone());
        },
        FieldAction::Unset => {
            u.displayname = None;
        },
    }
    match &request.avatar_url {
        FieldAction::DoNothing => {},
        FieldAction::Replace(d) => {
            u.avatar_url = Some(d.clone());
        },
        FieldAction::Unset => {
            u.avatar_url = None;
        },
    }
    match &request.emails {
        FieldAction::DoNothing => {},
        FieldAction::Replace(v) => {
            u.emails = Some(clone_strings(v));
        },
        FieldAction::Unset => {
            u.emails = None;
        },
    }
}

/// A mock home server connection.
pub struct HomeserverConnection {
    homeserver: String,
    users: Vec<MockUser>,
    reserved_localparts: Vec<String>,
}

impl View for HomeserverConnection {
    type V = MockView;

    closed spec fn view(&self) -> MockView {
        MockView { homeserver: self.homeserver@, users: self.users@, reserved: views(self.reserved_localparts@) }
    }
}

fn clone_strings(v: &Vec<String>) -> (r: Vec<String>)
    ensures
        r@ == v@,
{
    let mut out: Vec<String> = Vec::new();
    let mut i: usize = 0;
    while i < v.len()
        invariant
            i <= v@.len(),
            out@ == v@.subrange(0, i as int),
        decreases v.len() - i,
    {
        out.push(v[i].clone());
        assert(out@ =~= v@.subrange(0, i + 1));
        i = i + 1;
    }
    assert(v@.subrange(0, i as int) =~= v@);
    out
}

/// Whether `v` holds a string equal to `s`.
fn holds(v: &Vec<String>, s: &str) -> (r: bool)
    ensures
        r == views(v@).contains(s@),
{
    let mut i: usize = 0;
    while i < v.len()
        invariant
            i <= v@.len(),
            forall|j: int| 0 <= j < i ==> v@[j]@ != s@,
        decreases v.len() - i,
    {
        if str_eq(v[i].as_str(), s) {
            assert(views(v@)[i as int] == s@);
            return true;
        }
        i = i + 1;
    }
    assert(!views(v@).contains(s@)) by {
        if views(v@).contains(s@) {
            let j = choose|j: int| 0 <= j < views(v@).len() && views(v@)[j] == s@;
            assert(v@[j]@ == s@);
        }
    }
    false
}

impl HomeserverConnection {
    /// A mock server named `homeserver`, without users.
    pub fn new(homeserver: String) -> (r: HomeserverConnection)
        ensures
            r@.homeserver == homeserver@,
            r@.users.len() == 0,
            r@.reserved.len() == 0,
    {
        HomeserverConnection { homeserver, users: Vec::new(), reserved_localparts: Vec::new() }
    }

    /// The name of the server.
    pub fn homeserver(&self) -> (r: &str)
        ensures
            r@ == self@.homeserver,
    {
        self.homeserver.as_str()
    }

    /// The identifier of `localpart` on this server.
    pub fn mxid(&self, localpart: &str) -> (r: String)
        ensures
            r@ == mxid_of(self@.homeserver, localpart@),
    {
        mxid(self.homeserver.as_str(), localpart)
    }

    /// Whether `token` is the accepted bearer token.
    pub fn verify_token(&self, token: &str) -> (r: bool)
        ensures
            r == (token@ == valid_bearer_token()),
    {
        str_eq(token, "mock_homeserver_bearer_token")
    }

    /// Reserves a localpart, which is then unavailable.
    pub fn reserve_localpart(&mut self, localpart: String)
        ensures
            final(self)@ == (MockView { reserved: old(self)@.reserved.push(localpart@), ..old(self)@ }),
    {
        self.reserved_localparts.push(localpart);
        assert(views(self.reserved_localparts@) =~= views(old(self).reserved_localparts@).push(localpart@));
    }

    fn position(&self, localpart: &str) -> (r: Option<usize>)
        ensures
            r matches Some(i) ==> self@.index(localpart@) == Some(i as int) && i < self@.users.len(),
            r is None ==> self@.index(localpart@) is None,
    {
        let m = self.mxid(localpart);
        let mut i: usize = 0;
        while i < self.users.len()
            invariant
                i <= self.users@.len(),
                m@ == mxid_of(self@.homeserver, localpart@),
                forall|j: int| 0 <= j < i ==> !mxid_is(m@)(#[trigger] self.users@[j]),
            decreases self.users.len() - i,
        {
            if str_eq(self.users[i].mxid.as_str(), m.as_str()) {
                proof { lemma_first_where_is(self.users@, mxid_is(m@), i as int); }
                return Some(i);
            }
            i = i + 1;
        }
        proof { lemma_first_where(self.users@, mxid_is(m@)); }
        None
    }

    /// Takes the user at position `i` out, for the caller to edit and put back.
    fn take_user(&mut self, i: usize) -> (r: MockUser)
        requires
            i < old(self)@.users.len(),
        ensures
            r == old(self)@.users[i as int],
            final(self).users@ == old(self).users@.remove(i as int),
            final(self).homeserver == old(self).homeserver,
            final(self).reserved_localparts == old(self).reserved_localparts,
    {
        self.users.remove(i)
    }

    fn put_user(&mut self, i: usize, u: MockUser)
        requires
            i <= old(self).users@.len(),
        ensures
            final(self).users@ == old(self).users@.insert(i as int, u),
            final(self).homeserver == old(self).homeserver,
            final(self).reserved_localparts == old(self).reserved_localparts,
    {
        self.users.insert(i, u);
    }

    /// What the server tells about the user with localpart `localpart`.
    pub fn query_user(&self, localpart: &str) -> (r: Result<MatrixUser, MockError>)
        ensures
            match self@.user(localpart@) {
                None => r == Err::<MatrixUser, MockError>(MockError::UserNotFound),
                Some(u) => r == Ok::<MatrixUser, MockError>(MatrixUser {
                    displayname: u.displayname,
                    avatar_url: u.avatar_url,
                    deactivated: u.deactivated,
                }),
            },
    {
        match self.position(localpart) {
            None => Err(MockError::UserNotFound),
            Some(i) => {
                let u = &self.users[i];
                Ok(MatrixUser {
                    displayname: crate::model::clone_opt_string(&u.displayname),
                    avatar_url: crate::model::clone_opt_string(&u.avatar_url),
                    deactivated: u.deactivated,
                })
            },
        }
    }

    /// Whether `localpart` is neither reserved nor taken.
    pub fn is_localpart_available(&self, localpart: &str) -> (r: bool)
        ensures
            r == (!self@.reserved.contains(localpart@) && self@.index(localpart@) is None),
    {
        if holds(&self.reserved_localparts, localpart) {
            return false;
        }
        self.position(localpart).is_none()
    }

    /// Adds a device to the user, unless it has it already.
    pub fn upsert_device(&mut self, localpart: &str, device_id: &str, _initial_display_name: Option<&str>) -> (r: Result<(), MockError>)
        ensures
            r is Err <==> old(self)@.index(localpart@) is None,
            r matches Err(e) ==> e == MockError::UserNotFound,
            edits_user(old(self)@, final(self)@, localpart@, |a: MockUser, b: MockUser|
                b == (MockUser { devices: b.devices, ..a })
                && views(b.devices@) == if views(a.devices@).contains(device_id@) {
                    views(a.devices@)
                } else {
                    views(a.devices@).push(device_id@)
                }),
    {
        let i = match self.position(localpart) {
            None => {
                return Err(MockError::UserNotFound);
            },
            Some(i) => i,
        };
        let mut u = self.take_user(i);
        let ghost before = u.devices@;
        if !holds(&u.devices, device_id) {
            u.devices.push(device_id.to_owned());
            assert(views(u.devices@) =~= views(before).push(device_id@));
        }
        self.put_user(i, u);
        assert(self.users@ =~= old(self).users@.update(i as int, u));
        Ok(())
    }

    /// Renames a device of the user: fails when the device is unknown.
    pub fn update_device_display_name(&mut self, localpart: &str, device_id: &str, display_name: &str) -> (r: Result<(), MockError>)
        ensures
            old(self)@.index(localpart@) is None ==> r == Err::<(), MockError>(MockError::UserNotFound),
            old(self)@.user(localpart@) matches Some(u) ==> (r is Ok <==> views(u.devices@).contains(device_id@)),
            r matches Err(e) ==> e != MockError::SubjectMismatch,
            final(self)@ == old(self)@,
    {
        let i = match self.position(localpart) {
            None => {
                return Err(MockError::UserNotFound);
            },
            Some(i) => i,
        };
        if holds(&self.users[i].devices, device_id) {
            Ok(())
        } else {
            Err(MockError::DeviceNotFound)
        }
    }

    /// Removes a device of the user; an unknown device is no error.
    pub fn delete_device(&mut self, localpart: &str, device_id: &str) -> (r: Result<(), MockError>)
        ensures
            r is Err <==> old(self)@.index(localpart@) is None,
            r matches Err(e) ==> e == MockError::UserNotFound,
            edits_user(old(self)@, final(self)@, localpart@, |a: MockUser, b: MockUser|
                b == (MockUser { devices: b.devices, ..a })
                && views(b.devices@) == views(a.devices@).filter(|d: Seq<char>| d != device_id@)),
    {
        let i = match self.position(localpart) {
            None => {
                return Err(MockError::UserNotFound);
            },
            Some(i) => i,
        };
        let mut u = self.take_user(i);
        let mut kept: Vec<String> = Vec::new();
        let mut k: usize = 0;
        while k < u.devices.len()
            invariant
                k <= u.devices@.len(),
                views(kept@) == views(u.devices@.subrange(0, k as int)).filter(|d: Seq<char>| d != device_id@),
            decreases u.devices.len() - k,
        {
            proof {
                let s = views(u.devices@.subrange(0, k + 1));
                assert(s.drop_last() =~= views(u.devices@.subrange(0, k as int)));
                assert(s.last() == u.devices@[k as int]@);
                reveal(Seq::filter);
            }
            if !str_eq(u.devices[k].as_str(), device_id) {
                let ghost before = kept@;
                kept.push(u.devices[k].clone());
                assert(views(kept@) =~= views(before).push(u.devices@[k as int]@));
            }
            k = k + 1;
        }
        assert(u.devices@.subrange(0, k as int) =~= u.devices@);
        u.devices = kept;
        self.put_user(i, u);
        assert(self.users@ =~= old(self).users@.update(i as int, u));
        Ok(())
    }

    /// Replaces the devices of the user.
    pub fn sync_devices(&mut self, localpart: &str, devices: Vec<String>) -> (r: Result<(), MockError>)
        ensures
            r is Err <==> old(self)@.index(localpart@) is None,
            r matches Err(e) ==> e == MockError::UserNotFound,
            edits_user(old(self)@, final(self)@, localpart@, |a: MockUser, b: MockUser|
                b == (MockUser { devices: b.devices, ..a }) && b.devices@ == devices@),
    {
        let i = match self.position(localpart) {
            None => {
                return Err(MockError::UserNotFound);
            },
            Some(i) => i,
        };
        let mut u = self.take_user(i);
        u.devices = devices;
        self.put_user(i, u);
        assert(self.users@ =~= old(self).users@.update(i as int, u));
        Ok(())
    }

    /// Deactivates the user: its devices and emails go, and with `erase` its
    /// profile too.
    pub fn delete_user(&mut self, localpart: &str, erase: bool) -> (r: Result<(), MockError>)
        ensures
            r is Err <==> old(self)@.index(localpart@) is None,
            r matches Err(e) ==> e == MockError::UserNotFound,
            edits_user(old(self)@, final(self)@, localpart@, |a: MockUser, b: MockUser|
                b == (MockUser {
                    devices: b.devices,
                    emails: None,
                    deactivated: true,
                    avatar_url: if erase { None } else { a.avatar_url },
                    displayname: if erase { None } else { a.displayname },
                    ..a
                }) && b.devices@.len() == 0),
    {
        let i = match self.position(localpart) {
            None => {
                return Err(MockError::UserNotFound);
            },
            Some(i) => i,
        };
        let mut u = self.take_user(i);
        u.devices = Vec::new();
        u.emails = None;
        u.deactivated = true;
        if erase {
            u.avatar_url = None;
            u.displayname = None;
        }
        self.put_user(i, u);
        assert(self.users@ =~= old(self).users@.update(i as int, u));
        Ok(())
    }

    /// Reactivates the user.
    pub fn reactivate_user(&mut self, localpart: &str) -> (r: Result<(), MockError>)
        ensures
            r is Err <==> old(self)@.index(localpart@) is None,
            r matches Err(e) ==> e == MockError::UserNotFound,
            edits_user(old(self)@, final(self)@, localpart@, |a: MockUser, b: MockUser|
                b == (MockUser { deactivated: false, ..a })),
    {
        let i = match self.position(localpart) {
            None => {
                return Err(MockError::UserNotFound);
            },
            Some(i) => i,
        };
        let mut u = self.take_user(i);
        u.deactivated = false;
        self.put_user(i, u);
        assert(self.users@ =~= old(self).users@.update(i as int, u));
        Ok(())
    }

    /// Sets the display name of the user.
    pub fn set_displayname(&mut self, localpart: &str, displayname: &str) -> (r: Result<(), MockError>)
        ensures
            r is Err <==> old(self)@.index(localpart@) is None,
            r matches Err(e) ==> e == MockError::UserNotFound,
            edits_user(old(self)@, final(self)@, localpart@, |a: MockUser, b: MockUser|
                b == (MockUser { displayname: b.displayname, ..a }) && (b.displayname matches Some(d) && d@ == displayname@)),
    {
        let i = match self.position(localpart) {
            None => {
                return Err(MockError::UserNotFound);
            },
            Some(i) => i,
        };
        let mut u = self.take_user(i);
        u.displayname = Some(displayname.to_owned());
        self.put_user(i, u);
        assert(self.users@ =~= old(self).users@.update(i as int, u));
        Ok(())
    }

    /// Removes the display name of the user.
    pub fn unset_displayname(&mut self, localpart: &str) -> (r: Result<(), MockError>)
        ensures
            r is Err <==> old(self)@.index(localpart@) is None,
            r matches Err(e) ==> e == MockError::UserNotFound,
            edits_user(old(self)@, final(self)@, localpart@, |a: MockUser, b: MockUser|
                b == (MockUser { displayname: None, ..a })),
    {
        let i = match self.position(localpart) {
            None => {
                return Err(MockError::UserNotFound);
            },
            Some(i) => i,
        };
        let mut u = self.take_user(i);
        u.displayname = None;
        self.put_user(i, u);
        assert(self.users@ =~= old(self).users@.update(i as int, u));
        Ok(())
    }

    /// Allows the user to reset its cross-signing keys.
    pub fn allow_cross_signing_reset(&mut self, localpart: &str) -> (r: Result<(), MockError>)
        ensures
            r is Err <==> old(self)@.index(localpart@) is None,
            r matches Err(e) ==> e == MockError::UserNotFound,
            edits_user(old(self)@, final(self)@, localpart@, |a: MockUser, b: MockUser|
                b == (MockUser { cross_signing_reset_allowed: true, ..a })),
    {
        let i = match self.position(localpart) {
            None => {
                return Err(MockError::UserNotFound);
            },
            Some(i) => i,
        };
        let mut u = self.take_user(i);
        u.cross_signing_reset_allowed = true;
        self.put_user(i, u);
        assert(self.users@ =~= old(self).users@.update(i as int, u));
        Ok(())
    }

    /// Creates the user of `request`, or updates it when it exists with the
    /// same subject, applying the profile fields. Returns whether it was
    /// created.
    pub fn provision_user(&mut self, request: &ProvisionRequest) -> (r: Result<bool, MockError>)
        ensures
            match old(self)@.user(request.localpart@) {
                Some(u) => if u.sub@ != request.sub@ {
                    r == Err::<bool, MockError>(MockError::SubjectMismatch) && final(self)@ == old(self)@
                } else {
                    r == Ok::<bool, MockError>(false)
                        && edits_user(old(self)@, final(self)@, request.localpart@, |a: MockUser, b: MockUser| applied(a, b, *request))
                },
                None => {
                    let b = final(self)@.users.last();
                    &&& r == Ok::<bool, MockError>(true)
                    &&& final(self)@.homeserver == old(self)@.homeserver
                    &&& final(self)@.reserved == old(self)@.reserved
                    &&& final(self)@.users.drop_last() == old(self)@.users
                    &&& final(self)@.users.len() == old(self)@.users.len() + 1
                    &&& b.mxid@ == mxid_of(old(self)@.homeserver, request.localpart@)
                    &&& b.sub == request.sub
                    &&& b.devices@.len() == 0
                    &&& !b.cross_signing_reset_allowed
                    &&& !b.deactivated
                    &&& b.displayname == field_after(None, request.displayname)
                    &&& b.avatar_url == field_after(None, request.avatar_url)
                    &&& opt_strings(b.emails) == emails_after(None, request.emails)
                },
            },
    {
        match self.position(request.localpart.as_str()) {
            Some(i) => {
                if !str_eq(self.users[i].sub.as_str(), request.sub.as_str()) {
                    return Err(MockError::SubjectMismatch);
                }
                let mut u = self.take_user(i);
                apply_request(&mut u, request);
                self.put_user(i, u);
                assert(self.users@ =~= old(self).users@.update(i as int, u));
                Ok(false)
            },
            None => {
                let mut u = MockUser {
                    mxid: self.mxid(request.localpart.as_str()),
                    sub: request.sub.clone(),
                    avatar_url: None,
                    displayname: None,
                    devices: Vec::new(),
                    emails: None,
                    cross_signing_reset_allowed: false,
                    deactivated: false,
                };
                apply_request(&mut u, request);
                self.users.push(u);
                assert(self.users@.drop_last() =~= old(self).users@);
                Ok(true)
            },
        }
    }
}

} // verus!
