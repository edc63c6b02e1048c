//! Links between local users and identities at upstream OAuth 2.0 providers,
//! and what the attribute mapping of a new link sees.

use vstd::prelude::*;

use crate::model::Timestamp;

verus! {

/// A JSON value, as decoded from an upstream provider's answers.
#[verifier::external_type_specification]
#[verifier::external_body]
pub struct ExJsonValue(serde_json::Value);

/// A link between an identity at an upstream provider and a local user.
#[derive(Debug, Clone, PartialEq, Eq)]
pub struct UpstreamOAuthLink {
    pub id: u64,
    pub provider_id: u64,
    pub user_id: Option<u64>,
    pub subject: String,
    pub human_account_name: Option<String>,
    pub created_at: Timestamp,
}

/// What the attribute mapping template sees: the claims of the ID token, the
/// userinfo claims, and extra parameters passed to the callback.
#[derive(Debug, Default)]
pub struct AttributeMappingContext {
    pub id_token_claims: Option<std::collections::HashMap<String, serde_json::Value>>,
    pub extra_callback_parameters: Option<serde_json::Value>,
    pub userinfo_claims: Option<serde_json::Value>,
}

impl AttributeMappingContext {
    /// An empty context.
    pub fn new() -> (r: AttributeMappingContext)
        ensures
            r.id_token_claims is None,
            r.extra_callback_parameters is None,
            r.userinfo_claims is None,
    {
        AttributeMappingContext { id_token_claims: None, extra_callback_parameters: None, userinfo_claims: None }
    }

    /// Sets the claims of the ID token.
    pub fn with_id_token_claims(self, id_token_claims: std::collections::HashMap<String, serde_json::Value>) -> (r: AttributeMappingContext)
        ensures
            r == (AttributeMappingContext { id_token_claims: Some(id_token_claims), ..self }),
    {
        AttributeMappingContext { id_token_claims: Some(id_token_claims), ..self }
    }

    /// Sets the extra parameters passed to the callback.
    pub fn with_extra_callback_parameters(self, extra_callback_parameters: serde_json::Value) -> (r: AttributeMappingContext)
        ensures
            r == (AttributeMappingContext { extra_callback_parameters: Some(extra_callback_parameters), ..self }),
    {
        AttributeMappingContext { extra_callback_parameters: Some(extra_callback_parameters), ..self }
    }

    /// Sets the userinfo claims.
    pub fn with_userinfo_claims(self, userinfo_claims: serde_json::Value) -> (r: AttributeMappingContext)
        ensures
            r == (AttributeMappingContext { userinfo_claims: Some(userinfo_claims), ..self }),
    {
        AttributeMappingContext { userinfo_claims: Some(userinfo_claims), ..self }
    }
}

} // verus!
