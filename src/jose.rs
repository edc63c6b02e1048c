//! Entries of the IANA JOSE registries, and the enumeration each belongs to.

use vstd::prelude::*;

use crate::text::{contains, contains_spec, occurs_at, starts_with, str_eq};

verus! {

/// Where a registered algorithm is used.
#[derive(Debug, Clone, Copy, PartialEq, Eq, Structural)]
pub enum Usage {
    Alg,
    Enc,
    Jwk,
}

/// How strongly implementations are asked to support an entry.
#[derive(Debug, Clone, Copy, PartialEq, Eq, Structural)]
pub enum Requirements {
    Required,
    RecommendedPlus,
    Recommended,
    RecommendedMinus,
    Optional,
    Prohibited,
    Deprecated,
}

/// The view of an optional static string.
pub open spec fn opt_view(o: Option<&'static str>) -> Option<Seq<char>> {
    match o {
        Some(s) => Some(s@),
        None => None,
    }
}

/// A row of the web signature and encryption algorithms registry.
#[derive(Debug, Clone)]
pub struct WebEncryptionSignatureAlgorithm {
    pub name: String,
    pub description: String,
    pub usage: Usage,
    pub requirements: Requirements,
    pub change_controller: String,
    pub reference: String,
    pub analysis: String,
}

/// The enumeration a signature or encryption algorithm belongs to, decided
/// from its usage and the specification it references.
pub open spec fn algorithm_key(usage: Usage, reference: Seq<char>) -> Option<Seq<char>> {
    match usage {
        Usage::Alg => if contains_spec(reference, "RFC7518, Section 3"@) || contains_spec(reference, "RFC8037"@)
            || contains_spec(reference, "RFC8812"@) || (contains_spec(reference, "RFC-ietf-jose-fully-specified-algorithms"@)
            && contains_spec(reference, "Section 2"@)) {
            Some("JsonWebSignatureAlg"@)
        } else if contains_spec(reference, "RFC7518, Section 4"@) || contains_spec(reference, "WebCryptoAPI"@)
            || (contains_spec(reference, "RFC-ietf-jose-fully-specified-algorithms"@) && contains_spec(reference, "Section 3"@)) {
            Some("JsonWebEncryptionAlg"@)
        } else {
            None
        },
        Usage::Enc => Some("JsonWebEncryptionEnc"@),
        Usage::Jwk => None,
    }
}

impl WebEncryptionSignatureAlgorithm {
    /// The enumeration this algorithm belongs to, if any.
    pub fn key(&self) -> (r: Option<&'static str>)
        ensures
            opt_view(r) == algorithm_key(self.usage, self.reference@),
    {
        match self.usage {
            Usage::Alg => {
                let r = self.reference.as_str();
                if contains(r, "RFC7518, Section 3") || contains(r, "RFC8037") || contains(r, "RFC8812")
                    || (contains(r, "RFC-ietf-jose-fully-specified-algorithms") && contains(r, "Section 2")) {
                    Some("JsonWebSignatureAlg")
                } else if contains(r, "RFC7518, Section 4") || contains(r, "WebCryptoAPI")
                    || (contains(r, "RFC-ietf-jose-fully-specified-algorithms") && contains(r, "Section 3")) {
                    Some("JsonWebEncryptionAlg")
                } else {
                    None
                }
            },
            Usage::Enc => Some("JsonWebEncryptionEnc"),
            Usage::Jwk => None,
        }
    }

    /// The name of the algorithm.
    pub fn name(&self) -> (r: &str)
        ensures
            r@ == self.name@,
    {
        self.name.as_str()
    }

    /// The description of the algorithm.
    pub fn description(&self) -> (r: Option<&str>)
        ensures
            r matches Some(d) && d@ == self.description@,
    {
        Some(self.description.as_str())
    }
}

/// A row of the web encryption compression algorithms registry.
#[derive(Debug, Clone)]
pub struct WebEncryptionCompressionAlgorithm {
    pub value: String,
    pub description: String,
    pub change_controller: String,
    pub reference: String,
}

impl WebEncryptionCompressionAlgorithm {
    /// The enumeration this entry belongs to.
    pub fn key(&self) -> (r: Option<&'static str>)
        ensures
            opt_view(r) == Some("JsonWebEncryptionCompressionAlgorithm"@),
    {
        Some("JsonWebEncryptionCompressionAlgorithm")
    }

    /// The name of the entry.
    pub fn name(&self) -> (r: &str)
        ensures
            r@ == self.value@,
    {
        self.value.as_str()
    }

    /// The description of the entry.
    pub fn description(&self) -> (r: Option<&str>)
        ensures
            r matches Some(d) && d@ == self.description@,
    {
        Some(self.description.as_str())
    }
}

/// A row of the web key types registry.
#[derive(Debug, Clone)]
pub struct WebKeyType {
    pub value: String,
    pub description: String,
    pub requirements: Requirements,
    pub change_controller: String,
    pub reference: String,
}

impl WebKeyType {
    /// The enumeration this entry belongs to.
    pub fn key(&self) -> (r: Option<&'static str>)
        ensures
            opt_view(r) == Some("JsonWebKeyType"@),
    {
        Some("JsonWebKeyType")
    }

    /// The name of the entry.
    pub fn name(&self) -> (r: &str)
        ensures
            r@ == self.value@,
    {
        self.value.as_str()
    }

    /// The description of the entry.
    pub fn description(&self) -> (r: Option<&str>)
        ensures
            r matches Some(d) && d@ == self.description@,
    {
        Some(self.description.as_str())
    }
}

/// A row of the web key elliptic curves registry.
#[derive(Debug, Clone)]
pub struct WebKeyEllipticCurve {
    pub name: String,
    pub description: String,
    pub requirements: Requirements,
    pub change_controller: String,
    pub reference: String,
}

/// The enumeration a curve belongs to: EC curves are the `P-` ones and
/// `secp256k1`, the others are OKP curves.
pub open spec fn curve_key(name: Seq<char>) -> Seq<char> {
    if occurs_at(name, "P-"@, 0) || name == "secp256k1"@ {
        "JsonWebKeyEcEllipticCurve"@
    } else {
        "JsonWebKeyOkpEllipticCurve"@
    }
}

impl WebKeyEllipticCurve {
    /// The enumeration this curve belongs to.
    pub fn key(&self) -> (r: Option<&'static str>)
        ensures
            opt_view(r) == Some(curve_key(self.name@)),
    {
        if starts_with(self.name.as_str(), "P-") || str_eq(self.name.as_str(), "secp256k1") {
            Some("JsonWebKeyEcEllipticCurve")
        } else {
            Some("JsonWebKeyOkpEllipticCurve")
        }
    }

    /// The name of the curve.
    pub fn name(&self) -> (r: &str)
        ensures
            r@ == self.name@,
    {
        self.name.as_str()
    }

    /// The description of the curve.
    pub fn description(&self) -> (r: Option<&str>)
        ensures
            r matches Some(d) && d@ == self.description@,
    {
        Some(self.description.as_str())
    }
}

/// A row of the web key use registry.
#[derive(Debug, Clone)]
pub struct WebKeyUse {
    pub value: String,
    pub description: String,
    pub change_controller: String,
    pub reference: String,
}

impl WebKeyUse {
    /// The enumeration this entry belongs to.
    pub fn key(&self) -> (r: Option<&'static str>)
        ensures
            opt_view(r) == Some("JsonWebKeyUse"@),
    {
        Some("JsonWebKeyUse")
    }

    /// The name of the entry.
    pub fn name(&self) -> (r: &str)
        ensures
            r@ == self.value@,
    {
        self.value.as_str()
    }

    /// The description of the entry.
    pub fn description(&self) -> (r: Option<&str>)
        ensures
            r matches Some(d) && d@ == self.description@,
    {
        Some(self.description.as_str())
    }
}

/// A row of the web key operations registry.
#[derive(Debug, Clone)]
pub struct WebKeyOperation {
    pub name: String,
    pub description: String,
    pub change_controller: String,
    pub reference: String,
}

impl WebKeyOperation {
    /// The enumeration this entry belongs to.
    pub fn key(&self) -> (r: Option<&'static str>)
        ensures
            opt_view(r) == Some("JsonWebKeyOperation"@),
    {
        Some("JsonWebKeyOperation")
    }

    /// The name of the entry.
    pub fn name(&self) -> (r: &str)
        ensures
            r@ == self.name@,
    {
        self.name.as_str()
    }

    /// The description of the entry.
    pub fn description(&self) -> (r: Option<&str>)
        ensures
            r matches Some(d) && d@ == self.description@,
    {
        Some(self.description.as_str())
    }
}

} // verus!
