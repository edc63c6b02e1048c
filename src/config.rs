//! The HTTP section of the configuration.

use vstd::prelude::*;

verus! {

/// The address listened on when none is configured.
pub open spec fn default_http_address_spec() -> Seq<char> {
    "[::]:8080"@
}

/// The address listened on when none is configured.
pub fn default_http_address() -> (r: String)
    ensures
        r@ == default_http_address_spec(),
{
    String::from_str("[::]:8080")
}

/// Configuration of the HTTP listener.
#[derive(Debug, Clone)]
pub struct HttpConfig {
    pub address: String,
}

impl Default for HttpConfig {
    fn default() -> (r: HttpConfig)
        ensures
            r.address@ == default_http_address_spec(),
    {
        HttpConfig { address: default_http_address() }
    }
}

impl HttpConfig {
    /// The key of this section in the configuration file.
    pub fn path() -> (r: &'static str)
        ensures
            r@ == "http"@,
    {
        "http"
    }

    /// The section written into a generated configuration.
    pub fn generate() -> (r: HttpConfig)
        ensures
            r.address@ == default_http_address_spec(),
    {
        HttpConfig::default()
    }
}

} // verus!
