//! Session and token lifecycle core of an OAuth 2.0 / OIDC identity provider
//! for a federated chat network.

pub mod text;
pub mod pkce;
pub mod model;
pub mod policy;
pub mod sso;
pub mod device_grant;
pub mod rate_limit;
pub mod tokens;
pub mod repository;
pub mod matrix;
pub mod login;
pub mod compat;
pub mod admin;
pub mod jose;
pub mod tchap;
pub mod config;
pub mod migration;
pub mod upstream;
