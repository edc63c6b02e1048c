//! The legacy login surface: advertised flows, request shapes, the error
//! vocabulary returned to legacy clients, and the login decisions.

use vstd::prelude::*;

use crate::rate_limit::PasswordCheckLimitedError;
use crate::repository::RepositoryError;

verus! {

/// An identity provider offered by the SSO flow.
#[derive(Debug, Clone, PartialEq, Eq)]
pub struct SsoIdentityProvider {
    pub id: String,
    pub name: String,
}

/// A login flow advertised to legacy clients.
#[derive(Debug, Clone, PartialEq, Eq)]
pub enum LoginType {
    /// `m.login.password`
    Password,
    /// `m.login.token`
    Token,
    /// `m.login.sso`
    Sso { identity_providers: Vec<SsoIdentityProvider>, delegated_oidc_compatibility: bool },
}

/// The kind of an advertised flow.
pub open spec fn flow_kind(t: LoginType) -> int {
    match t {
        LoginType::Password => 0,
        LoginType::Token => 1,
        LoginType::Sso { identity_providers, delegated_oidc_compatibility } =>
            if identity_providers@.len() == 0 && delegated_oidc_compatibility { 2 } else { 3 },
    }
}

/// The login flows advertised: password (when enabled), SSO with delegated
/// OIDC compatibility and no listed provider, then token.
pub fn login_flows(password_login_enabled: bool) -> (r: Vec<LoginType>)
    ensures
        password_login_enabled ==> r@.map_values(|t: LoginType| flow_kind(t)) == seq![0int, 2, 1],
        !password_login_enabled ==> r@.map_values(|t: LoginType| flow_kind(t)) == seq![2int, 1],
{
    let mut flows: Vec<LoginType> = Vec::new();
    if password_login_enabled {
        flows.push(LoginType::Password);
    }
    flows.push(LoginType::Sso { identity_providers: Vec::new(), delegated_oidc_compatibility: true });
    flows.push(LoginType::Token);
    assert(flows@.map_values(|t: LoginType| flow_kind(t)) =~= if password_login_enabled {
        seq![0int, 2, 1]
    } else {
        seq![2int, 1]
    });
    flows
}

/// How the user is identified in a password login.
#[derive(Debug, Clone, PartialEq, Eq)]
pub enum Identifier {
    /// `m.id.user`
    User { user: String },
    /// Any other identifier type.
    Unsupported,
}

/// The credentials of a login request.
#[derive(Debug, Clone, PartialEq, Eq)]
pub enum Credentials {
    /// `m.login.password`; `user` is the deprecated flat form of the identifier.
    Password { identifier: Option<Identifier>, user: Option<String>, password: String },
    /// `m.login.token`
    Token { token: String },
    /// Any other login type.
    Unsupported,
}

/// A legacy login request.
#[derive(Debug, Clone, PartialEq, Eq)]
pub struct RequestBody {
    pub credentials: Credentials,
    /// Whether the client asks for a refresh token.
    pub refresh_token: bool,
}

/// A successful legacy login response.
#[derive(Debug, Clone, PartialEq, Eq)]
pub struct ResponseBody {
    pub access_token: String,
    pub device_id: Option<String>,
    pub user_id: String,
    pub refresh_token: Option<String>,
    pub expires_in_ms: Option<i64>,
}

/// Why a request body could not be read as JSON.
#[derive(Debug, Clone, Copy, PartialEq, Eq, Structural)]
pub enum JsonRejection {
    MissingJsonContentType,
    JsonSyntaxError,
    JsonDataError,
    Other,
}

/// The errors of the legacy login surface.
#[derive(Debug, Clone, PartialEq, Eq)]
pub enum RouteError {
    Internal(String),
    Unsupported,
    UnsupportedIdentifier,
    MissingIdentifier,
    UserNotFound,
    SessionNotFound,
    NoPassword,
    PasswordVerificationFailed(String),
    RateLimited(PasswordCheckLimitedError),
    LoginTookTooLong,
    InvalidLoginToken,
    InvalidJsonBody(JsonRejection),
    ProvisionDeviceFailed(String),
}

/// The body and status returned to a legacy client for an error.
#[derive(Debug, Clone, Copy, PartialEq, Eq)]
pub struct MatrixError {
    pub errcode: &'static str,
    pub error: &'static str,
    pub status: u16,
}

/// An error as the client sees it: code, message and HTTP status.
pub struct MatrixErrorView {
    pub errcode: Seq<char>,
    pub error: Seq<char>,
    pub status: u16,
}

impl MatrixError {
    pub open spec fn view(self) -> MatrixErrorView {
        MatrixErrorView { errcode: self.errcode@, error: self.error@, status: self.status }
    }
}

/// What the client sees of `e`.
pub open spec fn matrix_error_of(e: RouteError) -> MatrixErrorView {
    match e {
        RouteError::Internal(_) | RouteError::SessionNotFound | RouteError::ProvisionDeviceFailed(_) =>
            MatrixErrorView { errcode: "M_UNKNOWN"@, error: "Internal server error"@, status: 500 },
        RouteError::RateLimited(_) =>
            MatrixErrorView { errcode: "M_LIMIT_EXCEEDED"@, error: "Too many login attempts"@, status: 429 },
        RouteError::InvalidJsonBody(JsonRejection::MissingJsonContentType) =>
            MatrixErrorView { errcode: "M_NOT_JSON"@, error: "Invalid Content-Type header: expected application/json"@, status: 400 },
        RouteError::InvalidJsonBody(JsonRejection::JsonSyntaxError) =>
            MatrixErrorView { errcode: "M_NOT_JSON"@, error: "Body is not a valid JSON document"@, status: 400 },
        RouteError::InvalidJsonBody(JsonRejection::JsonDataError) =>
            MatrixErrorView { errcode: "M_BAD_JSON"@, error: "JSON fields are not valid"@, status: 400 },
        RouteError::InvalidJsonBody(JsonRejection::Other) =>
            MatrixErrorView { errcode: "M_UNKNOWN"@, error: "Unknown error while parsing JSON body"@, status: 400 },
        RouteError::Unsupported =>
            MatrixErrorView { errcode: "M_UNKNOWN"@, error: "Invalid login type"@, status: 400 },
        RouteError::UnsupportedIdentifier =>
            MatrixErrorView { errcode: "M_UNKNOWN"@, error: "Unsupported login identifier"@, status: 400 },
        RouteError::MissingIdentifier =>
            MatrixErrorView { errcode: "M_BAD_JSON"@, error: "Missing property 'identifier"@, status: 400 },
        RouteError::UserNotFound | RouteError::NoPassword | RouteError::PasswordVerificationFailed(_) =>
            MatrixErrorView { errcode: "M_FORBIDDEN"@, error: "Invalid username/password"@, status: 403 },
        RouteError::LoginTookTooLong =>
            MatrixErrorView { errcode: "M_FORBIDDEN"@, error: "Login token expired"@, status: 403 },
        RouteError::InvalidLoginToken =>
            MatrixErrorView { errcode: "M_FORBIDDEN"@, error: "Invalid login token"@, status: 403 },
    }
}

impl RouteError {
    /// The error as returned to the client.
    pub fn to_matrix_error(&self) -> (r: MatrixError)
        ensures
            r.view() == matrix_error_of(*self),
    {
        match self {
            RouteError::Internal(_) | RouteError::SessionNotFound | RouteError::ProvisionDeviceFailed(_) =>
                MatrixError { errcode: "M_UNKNOWN", error: "Internal server error", status: 500 },
            RouteError::RateLimited(_) =>
                MatrixError { errcode: "M_LIMIT_EXCEEDED", error: "Too many login attempts", status: 429 },
            RouteError::InvalidJsonBody(JsonRejection::MissingJsonContentType) =>
                MatrixError { errcode: "M_NOT_JSON", error: "Invalid Content-Type header: expected application/json", status: 400 },
            RouteError::InvalidJsonBody(JsonRejection::JsonSyntaxError) =>
                MatrixError { errcode: "M_NOT_JSON", error: "Body is not a valid JSON document", status: 400 },
            RouteError::InvalidJsonBody(JsonRejection::JsonDataError) =>
                MatrixError { errcode: "M_BAD_JSON", error: "JSON fields are not valid", status: 400 },
            RouteError::InvalidJsonBody(JsonRejection::Other) =>
                MatrixError { errcode: "M_UNKNOWN", error: "Unknown error while parsing JSON body", status: 400 },
            RouteError::Unsupported =>
                MatrixError { errcode: "M_UNKNOWN", error: "Invalid login type", status: 400 },
            RouteError::UnsupportedIdentifier =>
                MatrixError { errcode: "M_UNKNOWN", error: "Unsupported login identifier", status: 400 },
            RouteError::MissingIdentifier =>
                MatrixError { errcode: "M_BAD_JSON", error: "Missing property 'identifier", status: 400 },
            RouteError::UserNotFound | RouteError::NoPassword | RouteError::PasswordVerificationFailed(_) =>
                MatrixError { errcode: "M_FORBIDDEN", error: "Invalid username/password", status: 403 },
            RouteError::LoginTookTooLong =>
                MatrixError { errcode: "M_FORBIDDEN", error: "Login token expired", status: 403 },
            RouteError::InvalidLoginToken =>
                MatrixError { errcode: "M_FORBIDDEN", error: "Invalid login token", status: 403 },
        }
    }

    /// A storage failure, as a login error.
    pub fn from_repository(e: RepositoryError) -> (r: RouteError)
        ensures
            r is Internal,
    {
        match e {
            RepositoryError::IdsExhausted => RouteError::Internal(String::from_str("identifiers exhausted")),
            RepositoryError::TokenCollision => RouteError::Internal(String::from_str("token collision")),
        }
    }
}

/// A wrong password, an unknown user and a user without password look the
/// same to the client.
pub proof fn lemma_error_uniformity(detail: String)
    ensures
        matrix_error_of(RouteError::UserNotFound) == matrix_error_of(RouteError::PasswordVerificationFailed(detail)),
        matrix_error_of(RouteError::UserNotFound) == matrix_error_of(RouteError::NoPassword),
{
}

/// The username a password login names: the deprecated flat `user` when
/// given, else an `m.id.user` identifier.
pub open spec fn resolve_username_spec(identifier: Option<Identifier>, user: Option<String>) -> Result<String, RouteError> {
    match user {
        Some(u) => Ok(u),
        None => match identifier {
            Some(Identifier::User { user }) => Ok(user),
            Some(Identifier::Unsupported) => Err(RouteError::UnsupportedIdentifier),
            None => Err(RouteError::MissingIdentifier),
        },
    }
}

/// Resolves the username of a password login.
pub fn resolve_username(identifier: Option<Identifier>, user: Option<String>) -> (r: Result<String, RouteError>)
    ensures
        r == resolve_username_spec(identifier, user),
{
    match user {
        Some(u) => Ok(u),
        None => match identifier {
            Some(Identifier::User { user }) => Ok(user),
            Some(Identifier::Unsupported) => Err(RouteError::UnsupportedIdentifier),
            None => Err(RouteError::MissingIdentifier),
        },
    }
}

/// The login method a request asks for, once accepted.
#[derive(Debug, Clone, PartialEq, Eq)]
pub enum LoginMethod {
    Password { username: String, password: String },
    Token { token: String },
}

/// The login method of `credentials`: a password login only while password
/// login is enabled, a token login always, anything else unsupported.
pub open spec fn select_login_spec(password_login_enabled: bool, credentials: Credentials) -> Result<LoginMethod, RouteError> {
    match credentials {
        Credentials::Password { identifier, user, password } => if password_login_enabled {
            match resolve_username_spec(identifier, user) {
                Ok(username) => Ok(LoginMethod::Password { username, password }),
                Err(e) => Err(e),
            }
        } else {
            Err(RouteError::Unsupported)
        },
        Credentials::Token { token } => Ok(LoginMethod::Token { token }),
        Credentials::Unsupported => Err(RouteError::Unsupported),
    }
}

/// Decides which login method a request takes.
pub fn select_login(password_login_enabled: bool, credentials: Credentials) -> (r: Result<LoginMethod, RouteError>)
    ensures
        r == select_login_spec(password_login_enabled, credentials),
{
    match credentials {
        Credentials::Password { identifier, user, password } => {
            if password_login_enabled {
                let username = resolve_username(identifier, user)?;
                Ok(LoginMethod::Password { username, password })
            } else {
                Err(RouteError::Unsupported)
            }
        },
        Credentials::Token { token } => Ok(LoginMethod::Token { token }),
        Credentials::Unsupported => Err(RouteError::Unsupported),
    }
}

} // verus!
