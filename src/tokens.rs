//! Opaque bearer tokens and device identifiers.

use vstd::prelude::*;
use rand::distributions::DistString;

use crate::text::starts_with;
use crate::text::occurs_at;

verus! {

/// Length of the random part of a token.
pub const TOKEN_RANDOM_LEN: usize = 30;

/// Length of a generated device identifier.
pub const DEVICE_ID_LEN: usize = 10;

/// ASCII letters and digits.
pub open spec fn is_alphanumeric(c: char) -> bool {
    ('a' <= c && c <= 'z') || ('A' <= c && c <= 'Z') || ('0' <= c && c <= '9')
}

/// Every character of `s` is an ASCII letter or digit.
pub open spec fn all_alphanumeric(s: Seq<char>) -> bool {
    forall|i: int| 0 <= i < s.len() ==> is_alphanumeric(#[trigger] s[i])
}

/// Relies on `rand::distributions::Alphanumeric::sample_string` with the
/// thread-local CSPRNG: `len` characters, each an ASCII letter or digit.
#[verifier::external_body]
fn random_alphanumeric(len: usize) -> (r: String)
    ensures
        r@.len() == len,
        all_alphanumeric(r@),
{
    rand::distributions::Alphanumeric.sample_string(&mut rand::thread_rng(), len)
}

/// The kinds of bearer tokens.
#[derive(Debug, Clone, Copy, PartialEq, Eq, Structural)]
pub enum TokenType {
    AccessToken,
    RefreshToken,
    CompatAccessToken,
    CompatRefreshToken,
}

impl TokenType {
    /// The prefix that tags tokens of this kind.
    pub open spec fn spec_prefix(self) -> Seq<char> {
        match self {
            TokenType::AccessToken => "mat"@,
            TokenType::RefreshToken => "mar"@,
            TokenType::CompatAccessToken => "mct"@,
            TokenType::CompatRefreshToken => "mcr"@,
        }
    }

    /// The token of this kind whose random part is `payload`.
    pub open spec fn spec_token(self, payload: Seq<char>) -> Seq<char> {
        self.spec_prefix() + "_"@ + payload
    }

    /// The prefix that tags tokens of this kind.
    pub fn prefix(&self) -> (r: &'static str)
        ensures
            r@ == self.spec_prefix(),
    {
        match self {
            TokenType::AccessToken => "mat",
            TokenType::RefreshToken => "mar",
            TokenType::CompatAccessToken => "mct",
            TokenType::CompatRefreshToken => "mcr",
        }
    }

    /// The token of this kind with the given random part.
    pub fn format(&self, payload: &str) -> (r: String)
        ensures
            r@ == self.spec_token(payload@),
    {
        let mut out = String::from_str(self.prefix());
        out.append("_");
        out.append(payload);
        out
    }

    /// A fresh token of this kind: its prefix, `_`, and 30 random letters
    /// and digits.
    pub fn generate(&self) -> (r: String)
        ensures
            exists|p: Seq<char>| p.len() == TOKEN_RANDOM_LEN && all_alphanumeric(p) && r@ == #[trigger] self.spec_token(p),
    {
        let payload = random_alphanumeric(TOKEN_RANDOM_LEN);
        self.format(payload.as_str())
    }

    /// The kind of token a string is tagged as, by its prefix.
    pub fn check(token: &str) -> (r: Option<TokenType>)
        ensures
            r matches Some(k) ==> occurs_at(token@, k.spec_prefix() + "_"@, 0),
            r is None ==> forall|k: TokenType| !occurs_at(token@, #[trigger] k.spec_prefix() + "_"@, 0),
    {
        proof {
            reveal_strlit("mat_");
            reveal_strlit("mar_");
            reveal_strlit("mct_");
            reveal_strlit("mcr_");
            reveal_strlit("mat");
            reveal_strlit("mar");
            reveal_strlit("mct");
            reveal_strlit("mcr");
            reveal_strlit("_");
            assert("mat"@ + "_"@ =~= "mat_"@);
            assert("mar"@ + "_"@ =~= "mar_"@);
            assert("mct"@ + "_"@ =~= "mct_"@);
            assert("mcr"@ + "_"@ =~= "mcr_"@);
        }
        if starts_with(token, "mat_") {
            Some(TokenType::AccessToken)
        } else if starts_with(token, "mar_") {
            Some(TokenType::RefreshToken)
        } else if starts_with(token, "mct_") {
            Some(TokenType::CompatAccessToken)
        } else if starts_with(token, "mcr_") {
            Some(TokenType::CompatRefreshToken)
        } else {
            assert forall|k: TokenType| !occurs_at(token@, #[trigger] k.spec_prefix() + "_"@, 0) by {
                match k {
                    TokenType::AccessToken => {},
                    TokenType::RefreshToken => {},
                    TokenType::CompatAccessToken => {},
                    TokenType::CompatRefreshToken => {},
                }
            }
            None
        }
    }
}

/// A fresh device identifier: 10 random letters and digits.
pub fn generate_device_id() -> (r: String)
    ensures
        r@.len() == DEVICE_ID_LEN,
        all_alphanumeric(r@),
{
    random_alphanumeric(DEVICE_ID_LEN)
}

/// A generated token is tagged with the prefix of its kind.
pub proof fn lemma_token_tagged(kind: TokenType, payload: Seq<char>)
    ensures
        occurs_at(kind.spec_token(payload), kind.spec_prefix() + "_"@, 0),
{
    let t = kind.spec_token(payload);
    let p = kind.spec_prefix() + "_"@;
    assert(t.subrange(0, p.len() as int) =~= p);
}

} // verus!
