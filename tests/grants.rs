use mas_core::device_grant::{
    consent, consent_page, consent_to_grant, ConsentAction, ConsentError, ConsentOutcome, ConsentPage,
    DeviceCodeGrantState,
};
use mas_core::policy::{EvaluationResult, PolicyError, Violation};
use mas_core::repository::Repository;

fn no_violations() -> Result<EvaluationResult, PolicyError> {
    Ok(EvaluationResult { violations: vec![] })
}

fn one_violation() -> Result<EvaluationResult, PolicyError> {
    Ok(EvaluationResult {
        violations: vec![Violation { msg: "client not allowed".to_owned(), redirect_uri: None, field: None, code: None }],
    })
}

fn repo_with_grant() -> (Repository, u64) {
    let mut repo = Repository::new();
    let g = repo
        .add_device_code_grant(3, "openid".to_owned(), "ABCD".to_owned(), "devcode".to_owned(), 100, 1_000)
        .unwrap();
    (repo, g.id)
}

#[test]
fn consent_accept_twice_is_idempotent() {
    let (mut repo, id) = repo_with_grant();
    let first = consent_to_grant(&mut repo, id, ConsentAction::Consent, 9, 200, no_violations()).unwrap();
    let second = consent_to_grant(&mut repo, id, ConsentAction::Consent, 9, 300, no_violations()).unwrap();
    let (a, b) = match (first, second) {
        (ConsentOutcome::Decided(a), ConsentOutcome::Decided(b)) => (a, b),
        _ => panic!("expected decisions"),
    };
    assert_eq!(a.state, DeviceCodeGrantState::Fulfilled { browser_session_id: 9, fulfilled_at: 200 });
    assert_eq!(b.state, a.state);
    assert_eq!(repo.lookup_device_code_grant(id).unwrap().state, a.state);
}

#[test]
fn reject_after_consent_changes_nothing() {
    let (mut repo, id) = repo_with_grant();
    consent_to_grant(&mut repo, id, ConsentAction::Consent, 9, 200, no_violations()).unwrap();
    consent_to_grant(&mut repo, id, ConsentAction::Reject, 9, 250, no_violations()).unwrap();
    assert_eq!(
        repo.lookup_device_code_grant(id).unwrap().state,
        DeviceCodeGrantState::Fulfilled { browser_session_id: 9, fulfilled_at: 200 }
    );
}

#[test]
fn reject_pending_grant() {
    let (mut repo, id) = repo_with_grant();
    consent_to_grant(&mut repo, id, ConsentAction::Reject, 4, 200, no_violations()).unwrap();
    assert_eq!(
        repo.lookup_device_code_grant(id).unwrap().state,
        DeviceCodeGrantState::Rejected { browser_session_id: 4, rejected_at: 200 }
    );
}

#[test]
fn expired_grant_fails_whatever_the_action() {
    let (mut repo, id) = repo_with_grant();
    for action in [ConsentAction::Consent, ConsentAction::Reject] {
        let r = consent_to_grant(&mut repo, id, action, 9, 1_001, no_violations());
        assert!(matches!(r, Err(ConsentError::Expired)));
    }
    // At the expiry instant itself the grant is still usable.
    assert!(consent_to_grant(&mut repo, id, ConsentAction::Consent, 9, 1_000, no_violations()).is_ok());
}

#[test]
fn policy_violation_denies_without_change() {
    let (mut repo, id) = repo_with_grant();
    let r = consent_to_grant(&mut repo, id, ConsentAction::Consent, 9, 200, one_violation()).unwrap();
    assert!(matches!(r, ConsentOutcome::Denied(_)));
    assert_eq!(repo.lookup_device_code_grant(id).unwrap().state, DeviceCodeGrantState::Pending);
}

#[test]
fn policy_failure_fails_closed() {
    let (mut repo, id) = repo_with_grant();
    let r = consent_to_grant(&mut repo, id, ConsentAction::Consent, 9, 200, Err(PolicyError { message: "timeout".to_owned() }));
    assert!(matches!(r, Err(ConsentError::Policy(_))));
    assert_eq!(repo.lookup_device_code_grant(id).unwrap().state, DeviceCodeGrantState::Pending);
}

#[test]
fn unknown_grant() {
    let (mut repo, _) = repo_with_grant();
    assert!(matches!(consent_to_grant(&mut repo, 999, ConsentAction::Consent, 9, 200, no_violations()), Err(ConsentError::NotFound)));
}

#[test]
fn consent_on_a_value() {
    let (repo, id) = repo_with_grant();
    let g = repo.lookup_device_code_grant(id).unwrap();
    match consent(g, ConsentAction::Consent, 1, 5, no_violations()).unwrap() {
        ConsentOutcome::Decided(d) => assert!(!d.is_pending()),
        _ => panic!(),
    }
}

#[test]
fn consent_page_decisions() {
    let (repo, id) = repo_with_grant();
    let g = repo.lookup_device_code_grant(id);
    assert!(matches!(consent_page(id, false, g.clone(), 200, no_violations()), Ok(ConsentPage::LoginRedirect { grant_id }) if grant_id == id));
    assert!(matches!(consent_page(id, true, g.clone(), 200, no_violations()), Ok(ConsentPage::Consent(_))));
    assert!(matches!(consent_page(id, true, g.clone(), 200, one_violation()), Ok(ConsentPage::PolicyViolation(_))));
    assert!(matches!(consent_page(id, true, g.clone(), 2_000, no_violations()), Err(ConsentError::Expired)));
    assert!(matches!(consent_page(id, true, None, 200, no_violations()), Err(ConsentError::NotFound)));
}
