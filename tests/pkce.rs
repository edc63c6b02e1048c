use mas_core::pkce::PkceCodeChallengeMethod::{Plain, S256};
use mas_core::pkce::{
    validate_verifier, AuthorizationRequest, CodeChallengeError, CodeChallengeMethodExt,
    PkceCodeChallengeMethod, TokenRequest,
};

#[test]
fn test_pkce_verification() {
    // This challenge comes from the RFC7636 appendices
    let challenge = "E9Melhoa2OwvFrEMTJguCHaoeK1t8URWbuGJSstw-cM";

    assert!(S256
        .verify(challenge, "dBjftJeZ4CVP-mB92K27uhbUJU1p1r_wW1gFWFOEjXk")
        .is_ok());

    assert!(Plain.verify(challenge, challenge).is_ok());

    assert_eq!(
        S256.verify(challenge, "xxxxxxxxxxxxxxxxxxxxxxxxxxxxxxxxxxxxxxxxxxx"),
        Err(CodeChallengeError::VerificationFailed),
    );

    assert_eq!(
        S256.verify(challenge, "tooshort"),
        Err(CodeChallengeError::TooShort),
    );

    assert_eq!(
        S256.verify(challenge, "toolongtoolongtoolongtoolongtoolongtoolongtoolongtoolongtoolongtoolongtoolongtoolongtoolongtoolongtoolongtoolongtoolongtoolongtoolong"),
        Err(CodeChallengeError::TooLong),
    );

    assert_eq!(
        S256.verify(
            challenge,
            "this is long enough but has invalid characters in it"
        ),
        Err(CodeChallengeError::InvalidCharacters),
    );
}

#[test]
fn s256_challenge_of_rfc_verifier() {
    let c = PkceCodeChallengeMethod::S256
        .compute_challenge("dBjftJeZ4CVP-mB92K27uhbUJU1p1r_wW1gFWFOEjXk")
        .unwrap();
    assert_eq!(c, "E9Melhoa2OwvFrEMTJguCHaoeK1t8URWbuGJSstw-cM");
}

#[test]
fn plain_challenge_is_the_verifier() {
    let v = "a".repeat(50);
    assert_eq!(PkceCodeChallengeMethod::Plain.compute_challenge(&v).unwrap(), v);
}

#[test]
fn verifier_length_boundaries() {
    let ok = |n: usize| validate_verifier(&"a".repeat(n));
    assert_eq!(ok(42), Err(CodeChallengeError::TooShort));
    assert_eq!(ok(43), Ok(()));
    assert_eq!(ok(128), Ok(()));
    assert_eq!(ok(129), Err(CodeChallengeError::TooLong));
    assert_eq!(validate_verifier(""), Err(CodeChallengeError::TooShort));
}

#[test]
fn verifier_allowed_characters() {
    let v = "AZaz09-._~".repeat(5);
    assert_eq!(validate_verifier(&v), Ok(()));
    let bad = format!("{}+", "a".repeat(50));
    assert_eq!(validate_verifier(&bad), Err(CodeChallengeError::InvalidCharacters));
}

#[test]
fn unknown_method_is_refused() {
    let m = PkceCodeChallengeMethod::Unknown("S512".to_owned());
    let v = "a".repeat(50);
    assert_eq!(m.compute_challenge(&v), Err(CodeChallengeError::UnknownChallengeMethod));
    assert_eq!(m.verify(&v, &v), Err(CodeChallengeError::UnknownChallengeMethod));
    // validation comes first
    assert_eq!(m.verify("x", "short"), Err(CodeChallengeError::TooShort));
}

#[test]
fn round_trip_for_both_methods() {
    for v in ["a".repeat(43), "Zz09-._~".repeat(16), "dBjftJeZ4CVP-mB92K27uhbUJU1p1r_wW1gFWFOEjXk".to_owned()] {
        for m in [PkceCodeChallengeMethod::Plain, PkceCodeChallengeMethod::S256] {
            let c = m.compute_challenge(&v).unwrap();
            assert_eq!(m.verify(&c, &v), Ok(()));
        }
    }
}

#[test]
fn token_request_checked_against_authorization_request() {
    let auth = AuthorizationRequest {
        code_challenge_method: PkceCodeChallengeMethod::S256,
        code_challenge: "E9Melhoa2OwvFrEMTJguCHaoeK1t8URWbuGJSstw-cM".to_owned(),
    };
    let good = TokenRequest { code_challenge_verifier: "dBjftJeZ4CVP-mB92K27uhbUJU1p1r_wW1gFWFOEjXk".to_owned() };
    let bad = TokenRequest { code_challenge_verifier: "x".repeat(43) };
    assert_eq!(auth.verify_token_request(&good), Ok(()));
    assert_eq!(auth.verify_token_request(&bad), Err(CodeChallengeError::VerificationFailed));
}

#[test]
fn error_messages() {
    assert_eq!(CodeChallengeError::TooShort.message(), "code_verifier should be at least 43 characters long");
    assert_eq!(CodeChallengeError::UnknownChallengeMethod.message(), "unknown challenge method");
}
