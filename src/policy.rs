//! Inputs and outputs of the external policy engine, and how the core reads
//! its answers.

use vstd::prelude::*;

use crate::model::User;

verus! {

/// A well-known policy code.
#[derive(Debug, Clone, Copy, PartialEq, Eq, Structural)]
pub enum Code {
    /// The username is too short.
    UsernameTooShort,
    /// The username is too long.
    UsernameTooLong,
    /// The username contains invalid characters.
    UsernameInvalidChars,
    /// The username contains only numeric characters.
    UsernameAllNumeric,
    /// The username is banned.
    UsernameBanned,
    /// The username is not allowed.
    UsernameNotAllowed,
    /// The email domain is not allowed.
    EmailDomainNotAllowed,
    /// The email domain is banned.
    EmailDomainBanned,
    /// The email address is not allowed.
    EmailNotAllowed,
    /// The email address is banned.
    EmailBanned,
}

impl Code {
    /// The kebab-case name of the code.
    pub open spec fn spec_str(self) -> Seq<char> {
        match self {
            Code::UsernameTooShort => "username-too-short"@,
            Code::UsernameTooLong => "username-too-long"@,
            Code::UsernameInvalidChars => "username-invalid-chars"@,
            Code::UsernameAllNumeric => "username-all-numeric"@,
            Code::UsernameBanned => "username-banned"@,
            Code::UsernameNotAllowed => "username-not-allowed"@,
            Code::EmailDomainNotAllowed => "email-domain-not-allowed"@,
            Code::EmailDomainBanned => "email-domain-banned"@,
            Code::EmailNotAllowed => "email-not-allowed"@,
            Code::EmailBanned => "email-banned"@,
        }
    }

    /// Returns the code as a string.
    pub fn as_str(&self) -> (r: &'static str)
        ensures
            r@ == self.spec_str(),
    {
        match self {
            Code::UsernameTooShort => "username-too-short",
            Code::UsernameTooLong => "username-too-long",
            Code::UsernameInvalidChars => "username-invalid-chars",
            Code::UsernameAllNumeric => "username-all-numeric",
            Code::UsernameBanned => "username-banned",
            Code::UsernameNotAllowed => "username-not-allowed",
            Code::EmailDomainNotAllowed => "email-domain-not-allowed",
            Code::EmailDomainBanned => "email-domain-banned",
            Code::EmailNotAllowed => "email-not-allowed",
            Code::EmailBanned => "email-banned",
        }
    }
}

/// A single violation of a policy.
#[derive(Debug, Clone)]
pub struct Violation {
    pub msg: String,
    pub redirect_uri: Option<String>,
    pub field: Option<String>,
    pub code: Option<Code>,
}

/// The result of a policy evaluation.
#[derive(Debug, Clone)]
pub struct EvaluationResult {
    pub violations: Vec<Violation>,
}

/// The messages of `vs`, joined with `", "`.
pub open spec fn joined_messages(vs: Seq<Violation>) -> Seq<char>
    decreases vs.len(),
{
    if vs.len() == 0 {
        Seq::empty()
    } else if vs.len() == 1 {
        vs[0].msg@
    } else {
        joined_messages(vs.drop_last()) + ", "@ + vs.last().msg@
    }
}

impl EvaluationResult {
    /// Returns true if the policy evaluation was successful.
    pub fn valid(&self) -> (r: bool)
        ensures
            r == (self.violations@.len() == 0),
    {
        self.violations.len() == 0
    }

    /// The messages of the violations, separated by `", "`.
    pub fn message(&self) -> (r: String)
        ensures
            r@ == joined_messages(self.violations@),
    {
        let mut out = String::new();
        let mut i: usize = 0;
        while i < self.violations.len()
            invariant
                i <= self.violations@.len(),
                out@ == joined_messages(self.violations@.subrange(0, i as int)),
            decreases self.violations.len() - i,
        {
            proof {
                let s = self.violations@.subrange(0, i + 1);
                assert(s.drop_last() =~= self.violations@.subrange(0, i as int));
                assert(self.violations@.subrange(0, 0) =~= Seq::<Violation>::empty());
            }
            if i > 0 {
                out.append(", ");
            }
            out.append(self.violations[i].msg.as_str());
            i = i + 1;
        }
        assert(self.violations@.subrange(0, i as int) =~= self.violations@);
        out
    }
}

/// Identity of the requester.
#[derive(Debug, Clone, Default)]
pub struct Requester {
    /// IP address of the entity making the request, in text form.
    pub ip_address: Option<String>,
    /// User agent of the entity making the request.
    pub user_agent: Option<String>,
}

/// How a user registers.
#[derive(Debug, Clone, Copy, PartialEq, Eq, Structural)]
pub enum RegistrationMethod {
    Password,
    UpstreamOAuth2,
}

/// Input for the user registration policy.
#[derive(Debug, Clone)]
pub struct RegisterInput {
    pub registration_method: RegistrationMethod,
    pub username: String,
    pub email: Option<String>,
    pub requester: Requester,
}

/// The kind of grant a client asks for.
#[derive(Debug, Clone, Copy, PartialEq, Eq, Structural)]
pub enum GrantType {
    AuthorizationCode,
    ClientCredentials,
    DeviceCode,
}

impl GrantType {
    /// The name of the grant type in policy inputs.
    pub fn as_str(&self) -> (r: &'static str)
        ensures
            *self == GrantType::AuthorizationCode ==> r@ == "authorization_code"@,
            *self == GrantType::ClientCredentials ==> r@ == "client_credentials"@,
            *self == GrantType::DeviceCode ==> r@ == "urn:ietf:params:oauth:grant-type:device_code"@,
    {
        match self {
            GrantType::AuthorizationCode => "authorization_code",
            GrantType::ClientCredentials => "client_credentials",
            GrantType::DeviceCode => "urn:ietf:params:oauth:grant-type:device_code",
        }
    }
}

/// Input for the authorization grant policy.
#[derive(Debug, Clone)]
pub struct AuthorizationGrantInput {
    pub user: Option<User>,
    pub client_id: u64,
    pub scope: String,
    pub grant_type: GrantType,
    pub requester: Requester,
}

impl AuthorizationGrantInput {
    /// The policy input for a device-code grant of `client_id` with `scope`,
    /// consented to by `user`.
    pub fn for_device_code_grant(user: User, client_id: u64, scope: String, requester: Requester) -> (r: AuthorizationGrantInput)
        ensures
            r.user == Some(user),
            r.client_id == client_id,
            r.scope == scope,
            r.grant_type == GrantType::DeviceCode,
    {
        AuthorizationGrantInput { user: Some(user), client_id, scope, grant_type: GrantType::DeviceCode, requester }
    }
}

/// Input for the email add policy.
#[derive(Debug, Clone)]
pub struct EmailInput {
    pub email: String,
    pub requester: Requester,
}

/// The policy engine could not be reached or failed to evaluate.
#[derive(Debug, Clone)]
pub struct PolicyError {
    pub message: String,
}

/// What the core makes of a policy answer.
#[derive(Debug, Clone)]
pub enum PolicyDecision {
    /// No violation: the request may go on.
    Allowed,
    /// The request is denied, with the violations to show.
    Denied(EvaluationResult),
}

/// Reads a policy answer, failing closed: an evaluation error is never taken
/// for an absence of violations.
pub fn decide(answer: Result<EvaluationResult, PolicyError>) -> (r: Result<PolicyDecision, PolicyError>)
    ensures
        answer matches Err(e) ==> r == Err::<PolicyDecision, PolicyError>(e),
        answer matches Ok(res) ==> (res.violations@.len() == 0 <==> r matches Ok(PolicyDecision::Allowed)),
        answer matches Ok(res) ==> (res.violations@.len() > 0 <==> r == Ok::<PolicyDecision, PolicyError>(PolicyDecision::Denied(res))),
{
    match answer {
        Err(e) => Err(e),
        Ok(res) => {
            if res.valid() {
                Ok(PolicyDecision::Allowed)
            } else {
                Ok(PolicyDecision::Denied(res))
            }
        },
    }
}

} // verus!
