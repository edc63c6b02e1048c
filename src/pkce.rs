//! Proof Key for Code Exchange: verifier validation, challenge computation
//! and challenge verification.

use vstd::prelude::*;
use vstd::utf8::encode_utf8;
use base64ct::Encoding;
use sha2::Digest;

use crate::text::str_eq;

verus! {

/// Errors that can occur when verifying a code challenge.
#[derive(Debug, PartialEq, Eq, Structural, Clone, Copy)]
pub enum CodeChallengeError {
    /// The code verifier should be at least 43 characters long.
    TooShort,
    /// The code verifier should be at most 128 characters long.
    TooLong,
    /// The code verifier contains invalid characters.
    InvalidCharacters,
    /// The challenge verification failed.
    VerificationFailed,
    /// The challenge method is unsupported.
    UnknownChallengeMethod,
}

impl CodeChallengeError {
    /// Human-readable description of the error.
    pub fn message(&self) -> (r: &'static str) {
        match self {
            CodeChallengeError::TooShort => "code_verifier should be at least 43 characters long",
            CodeChallengeError::TooLong => "code_verifier should be at most 128 characters long",
            CodeChallengeError::InvalidCharacters => "code_verifier contains invalid characters",
            CodeChallengeError::VerificationFailed => "challenge verification failed",
            CodeChallengeError::UnknownChallengeMethod => "unknown challenge method",
        }
    }
}

/// A PKCE code challenge method.
#[derive(Debug, Clone, PartialEq, Eq)]
pub enum PkceCodeChallengeMethod {
    /// The challenge is the verifier itself.
    Plain,
    /// The challenge is the unpadded base64url encoding of the SHA-256 of the verifier.
    S256,
    /// A method this library does not know, by its registered name.
    Unknown(String),
}

/// Shortest accepted verifier, in bytes.
pub const MIN_VERIFIER_LEN: usize = 43;

/// Longest accepted verifier, in bytes.
pub const MAX_VERIFIER_LEN: usize = 128;

/// Characters allowed in a code verifier: `[A-Za-z0-9-._~]`.
pub open spec fn is_verifier_char(c: char) -> bool {
    ('a' <= c && c <= 'z') || ('A' <= c && c <= 'Z') || ('0' <= c && c <= '9') || c == '-'
        || c == '.' || c == '_' || c == '~'
}

/// The outcome of validating a verifier, whose characters are `v`.
pub open spec fn verifier_check(v: Seq<char>) -> Result<(), CodeChallengeError> {
    if encode_utf8(v).len() < MIN_VERIFIER_LEN {
        Err(CodeChallengeError::TooShort)
    } else if encode_utf8(v).len() > MAX_VERIFIER_LEN {
        Err(CodeChallengeError::TooLong)
    } else if !(forall|i: int| 0 <= i < v.len() ==> is_verifier_char(#[trigger] v[i])) {
        Err(CodeChallengeError::InvalidCharacters)
    } else {
        Ok(())
    }
}

/// The SHA-256 digest of `data`.
pub uninterp spec fn sha256_of(data: Seq<u8>) -> Seq<u8>;

/// The unpadded base64url encoding of `data`.
pub uninterp spec fn base64url_unpadded_of(data: Seq<u8>) -> Seq<char>;

/// The challenge for verifier `v` under `method`, or the error computing it gives.
pub open spec fn challenge_of(method: PkceCodeChallengeMethod, v: Seq<char>) -> Result<Seq<char>, CodeChallengeError> {
    match verifier_check(v) {
        Err(e) => Err(e),
        Ok(_) => match method {
            PkceCodeChallengeMethod::Plain => Ok(v),
            PkceCodeChallengeMethod::S256 => Ok(base64url_unpadded_of(sha256_of(encode_utf8(v)))),
            PkceCodeChallengeMethod::Unknown(_) => Err(CodeChallengeError::UnknownChallengeMethod),
        },
    }
}

/// The outcome of verifying `challenge` given the computed challenge `computed`.
pub open spec fn verification_of(computed: Result<Seq<char>, CodeChallengeError>, challenge: Seq<char>) -> Result<(), CodeChallengeError> {
    match computed {
        Err(e) => Err(e),
        Ok(c) => if c == challenge {
            Ok(())
        } else {
            Err(CodeChallengeError::VerificationFailed)
        },
    }
}

/// Relies on `sha2::Sha256::digest`: the digest of the bytes, 32 bytes long.
#[verifier::external_body]
fn sha256_digest(data: &[u8]) -> (r: Vec<u8>)
    ensures
        r@ == sha256_of(data@),
        r@.len() == 32,
{
    sha2::Sha256::digest(data).to_vec()
}

/// Relies on `base64ct::Base64UrlUnpadded::encode_string`: the unpadded
/// base64url encoding of the bytes. It panics only where four times the
/// length overflows.
#[verifier::external_body]
fn base64url_unpadded(data: &[u8]) -> (r: String)
    requires
        data@.len() * 4 <= usize::MAX,
    ensures
        r@ == base64url_unpadded_of(data@),
{
    base64ct::Base64UrlUnpadded::encode_string(data)
}

/// Checks the length and the characters of a code verifier.
pub fn validate_verifier(verifier: &str) -> (r: Result<(), CodeChallengeError>)
    ensures
        r == verifier_check(verifier@),
{
    let byte_len = verifier.as_bytes().len();
    if byte_len < MIN_VERIFIER_LEN {
        return Err(CodeChallengeError::TooShort);
    }
    if byte_len > MAX_VERIFIER_LEN {
        return Err(CodeChallengeError::TooLong);
    }
    let n = verifier.unicode_len();
    let mut i: usize = 0;
    while i < n
        invariant
            n == verifier@.len(),
            i <= n,
            MIN_VERIFIER_LEN <= encode_utf8(verifier@).len() <= MAX_VERIFIER_LEN,
            forall|k: int| 0 <= k < i ==> is_verifier_char(#[trigger] verifier@[k]),
        decreases n - i,
    {
        let c = verifier.get_char(i);
        let ok = ('a' <= c && c <= 'z') || ('A' <= c && c <= 'Z') || ('0' <= c && c <= '9')
            || c == '-' || c == '.' || c == '_' || c == '~';
        if !ok {
            assert(!is_verifier_char(verifier@[i as int]));
            assert(!(forall|k: int| 0 <= k < verifier@.len() ==> is_verifier_char(#[trigger] verifier@[k])));
            return Err(CodeChallengeError::InvalidCharacters);
        }
        i = i + 1;
    }
    Ok(())
}

/// Computes and verifies code challenges.
pub trait CodeChallengeMethodExt: Sized {
    /// The challenge for the verifier whose characters are `verifier`.
    spec fn spec_challenge(&self, verifier: Seq<char>) -> Result<Seq<char>, CodeChallengeError>;

    /// Computes the challenge for a given verifier.
    fn compute_challenge(&self, verifier: &str) -> (r: Result<String, CodeChallengeError>)
        ensures
            r matches Ok(c) ==> self.spec_challenge(verifier@) == Ok::<Seq<char>, CodeChallengeError>(c@),
            r matches Err(e) ==> self.spec_challenge(verifier@) == Err::<Seq<char>, CodeChallengeError>(e),
    ;

    /// Verifies that a given verifier is valid for the given challenge.
    fn verify(&self, challenge: &str, verifier: &str) -> (r: Result<(), CodeChallengeError>)
        ensures
            r == verification_of(self.spec_challenge(verifier@), challenge@),
    {
        match self.compute_challenge(verifier) {
            Err(e) => Err(e),
            Ok(c) => {
                if str_eq(c.as_str(), challenge) {
                    Ok(())
                } else {
                    Err(CodeChallengeError::VerificationFailed)
                }
            },
        }
    }
}

impl CodeChallengeMethodExt for PkceCodeChallengeMethod {
    open spec fn spec_challenge(&self, verifier: Seq<char>) -> Result<Seq<char>, CodeChallengeError> {
        challenge_of(*self, verifier)
    }

    fn compute_challenge(&self, verifier: &str) -> (r: Result<String, CodeChallengeError>) {
        validate_verifier(verifier)?;
        match self {
            PkceCodeChallengeMethod::Plain => Ok(verifier.to_owned()),
            PkceCodeChallengeMethod::S256 => {
                let bytes = verifier.as_bytes();
                let hash = sha256_digest(bytes);
                Ok(base64url_unpadded(hash.as_slice()))
            },
            PkceCodeChallengeMethod::Unknown(_) => Err(CodeChallengeError::UnknownChallengeMethod),
        }
    }
}

/// The code challenge data added to an authorization request.
#[derive(Clone)]
pub struct AuthorizationRequest {
    /// The code challenge method.
    pub code_challenge_method: PkceCodeChallengeMethod,
    /// The code challenge computed from the verifier and the method.
    pub code_challenge: String,
}

/// The code challenge data added to a token request.
#[derive(Clone)]
pub struct TokenRequest {
    /// The code challenge verifier.
    pub code_challenge_verifier: String,
}

impl AuthorizationRequest {
    /// Checks the verifier of a token request against this authorization request.
    pub fn verify_token_request(&self, request: &TokenRequest) -> (r: Result<(), CodeChallengeError>)
        ensures
            r == verification_of(
                challenge_of(self.code_challenge_method, request.code_challenge_verifier@),
                self.code_challenge@,
            ),
    {
        self.code_challenge_method.verify(self.code_challenge.as_str(), request.code_challenge_verifier.as_str())
    }
}

/// A valid verifier passes verification against its own challenge, whatever
/// the known method.
pub proof fn lemma_round_trip(method: PkceCodeChallengeMethod, v: Seq<char>)
    requires
        verifier_check(v) is Ok,
        !(method is Unknown),
    ensures
        challenge_of(method, v) is Ok,
        verification_of(challenge_of(method, v), challenge_of(method, v)->Ok_0) == Ok::<(), CodeChallengeError>(()),
{
}

/// Verifiers shorter than 43 bytes are too short, longer than 128 bytes too
/// long, and of 43 to 128 allowed characters valid.
pub proof fn lemma_length_boundary(v: Seq<char>)
    ensures
        encode_utf8(v).len() < 43 ==> verifier_check(v) == Err::<(), CodeChallengeError>(CodeChallengeError::TooShort),
        encode_utf8(v).len() > 128 ==> verifier_check(v) == Err::<(), CodeChallengeError>(CodeChallengeError::TooLong),
        43 <= encode_utf8(v).len() <= 128 && (forall|i: int| 0 <= i < v.len() ==> is_verifier_char(#[trigger] v[i]))
            ==> verifier_check(v) == Ok::<(), CodeChallengeError>(()),
{
}

} // verus!
