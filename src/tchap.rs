//! Whether an email address may be used on this server, as the identity
//! server decides, and where to ask it.

use vstd::prelude::*;

use crate::text::str_eq;

verus! {

/// Result of checking if an email is allowed on a server.
#[derive(Debug, Clone, Copy, PartialEq, Eq, Structural)]
pub enum EmailAllowedResult {
    /// Email is allowed on this server.
    Allowed,
    /// Email is mapped to a different server.
    WrongServer,
    /// Server requires an invitation that is not present.
    InvitationMissing,
}

/// What the identity server answered about an email address.
#[derive(Debug, Clone, PartialEq, Eq)]
pub struct IdentityInfo {
    /// The server the address is mapped to, when the answer names one as a string.
    pub hs: Option<String>,
    /// Whether the server requires an invitation, when the answer says so as a boolean.
    pub requires_invite: Option<bool>,
    /// Whether the address was invited, when the answer says so as a boolean.
    pub invited: Option<bool>,
}

/// The decision on an address, given the identity server's answer (none when
/// the request or its decoding failed) and this server's name.
pub open spec fn email_allowed_spec(info: Option<IdentityInfo>, server_name: Seq<char>) -> EmailAllowedResult {
    match info {
        None => EmailAllowedResult::WrongServer,
        Some(i) => match i.hs {
            None => EmailAllowedResult::WrongServer,
            Some(hs) => if hs@ != server_name {
                EmailAllowedResult::WrongServer
            } else if i.requires_invite == Some(true) && i.invited != Some(true) {
                EmailAllowedResult::InvitationMissing
            } else {
                EmailAllowedResult::Allowed
            },
        },
    }
}

/// Decides whether an address may be used on this server.
pub fn email_allowed(info: Option<IdentityInfo>, server_name: &str) -> (r: EmailAllowedResult)
    ensures
        r == email_allowed_spec(info, server_name@),
{
    let i = match info {
        None => {
            return EmailAllowedResult::WrongServer;
        },
        Some(i) => i,
    };
    let hs = match i.hs {
        None => {
            return EmailAllowedResult::WrongServer;
        },
        Some(hs) => hs,
    };
    if !str_eq(hs.as_str(), server_name) {
        return EmailAllowedResult::WrongServer;
    }
    let requires_invite = match i.requires_invite {
        Some(b) => b,
        None => false,
    };
    let invited = match i.invited {
        Some(b) => b,
        None => false,
    };
    if requires_invite && !invited {
        EmailAllowedResult::InvitationMissing
    } else {
        EmailAllowedResult::Allowed
    }
}

/// The info endpoint of the identity server for `email`.
pub open spec fn identity_info_url_spec(identity_server_url: Seq<char>, email: Seq<char>) -> Seq<char> {
    identity_server_url + "_matrix/identity/api/v1/info?medium=email&address="@ + email
}

/// The info endpoint of the identity server at `identity_server_url` (which
/// ends with `/`) for `email`.
pub fn identity_info_url(identity_server_url: &str, email: &str) -> (r: String)
    ensures
        r@ == identity_info_url_spec(identity_server_url@, email@),
{
    let mut out = String::from_str(identity_server_url);
    out.append("_matrix/identity/api/v1/info?medium=email&address=");
    out.append(email);
    out
}

/// The serialization of `s` parsed as an absolute URL, if it parses.
pub uninterp spec fn parsed_url(s: Seq<char>) -> Option<Seq<char>>;

/// Relies on `url::Url::parse`: the URL in its serialized form, or nothing
/// when the text is not an absolute URL.
#[verifier::external_body]
fn parse_url(s: &str) -> (r: Option<String>)
    ensures
        r matches Some(u) ==> parsed_url(s@) == Some(u@),
        r is None ==> parsed_url(s@) is None,
{
    match url::Url::parse(s) {
        Ok(u) => Some(u.to_string()),
        Err(_) => None,
    }
}

/// The identity server used when none is configured.
pub open spec fn fallback_identity_server_url() -> Seq<char> {
    "http://localhost:8083/"@
}

/// The identity server URL: the configured one when it parses, else the default.
pub open spec fn identity_server_url_spec(configured: Option<String>) -> Seq<char> {
    match configured {
        Some(s) => match parsed_url(s@) {
            Some(u) => u,
            None => fallback_identity_server_url(),
        },
        None => fallback_identity_server_url(),
    }
}

/// Chooses the identity server URL from the configured value, if any.
pub fn default_identity_server_url(configured: Option<String>) -> (r: String)
    ensures
        r@ == identity_server_url_spec(configured),
{
    if let Some(s) = configured {
        if let Some(u) = parse_url(s.as_str()) {
            return u;
        }
    }
    String::from_str("http://localhost:8083/")
}

/// Configuration of the identity server checks.
#[derive(Debug, Clone)]
pub struct TchapConfig {
    /// The base URL of the identity server API.
    pub identity_server_url: String,
}

impl TchapConfig {
    /// The configuration from the configured identity server URL, if any.
    pub fn from_configured(configured: Option<String>) -> (r: TchapConfig)
        ensures
            r.identity_server_url@ == identity_server_url_spec(configured),
    {
        TchapConfig { identity_server_url: default_identity_server_url(configured) }
    }
}

} // verus!
