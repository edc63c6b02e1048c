//! The device-authorization grant and the consent decisions on it.

use vstd::prelude::*;

use crate::model::{has_id, index_of, lemma_first_where, lemma_first_where_same, Record, Timestamp};
use crate::repository::Repository;
use crate::policy::{EvaluationResult, PolicyError};

verus! {

/// The state of a device-code grant. Expiry is derived from `expires_at`,
/// never stored.
#[derive(Debug, Clone, Copy, PartialEq, Eq, Structural)]
pub enum DeviceCodeGrantState {
    /// Waiting for the user's decision.
    Pending,
    /// The user consented from the given browser session.
    Fulfilled { browser_session_id: u64, fulfilled_at: Timestamp },
    /// The user refused from the given browser session.
    Rejected { browser_session_id: u64, rejected_at: Timestamp },
}

/// A device-authorization grant.
#[derive(Debug)]
pub struct DeviceCodeGrant {
    pub id: u64,
    pub client_id: u64,
    pub scope: String,
    pub user_code: String,
    pub device_code: String,
    pub created_at: Timestamp,
    pub expires_at: Timestamp,
    pub state: DeviceCodeGrantState,
}

impl Record for DeviceCodeGrant {
    open spec fn spec_id(&self) -> u64 {
        self.id
    }

    fn id(&self) -> (r: u64) {
        self.id
    }

    fn duplicate(&self) -> (r: Self) {
        self.clone()
    }
}

impl Clone for DeviceCodeGrant {
    fn clone(&self) -> (r: Self)
        ensures
            r == *self,
    {
        DeviceCodeGrant {
            id: self.id,
            client_id: self.client_id,
            scope: self.scope.clone(),
            user_code: self.user_code.clone(),
            device_code: self.device_code.clone(),
            created_at: self.created_at,
            expires_at: self.expires_at,
            state: self.state,
        }
    }
}

impl DeviceCodeGrant {
    /// Whether the grant still waits for a decision.
    pub fn is_pending(&self) -> (r: bool)
        ensures
            r == (self.state is Pending),
    {
        match self.state {
            DeviceCodeGrantState::Pending => true,
            _ => false,
        }
    }

    /// Whether the grant has expired at `now`.
    pub fn is_expired(&self, now: Timestamp) -> (r: bool)
        ensures
            r == (self.expires_at < now),
    {
        self.expires_at < now
    }
}

/// What the user chose on the consent page.
#[derive(Debug, Clone, Copy, PartialEq, Eq, Structural)]
pub enum ConsentAction {
    Consent,
    Reject,
}

/// Why a consent decision could not be taken.
#[derive(Debug, Clone)]
pub enum ConsentError {
    /// No grant has the identifier.
    NotFound,
    /// The grant expired before the decision.
    Expired,
    /// The policy engine failed; the request is refused.
    Policy(PolicyError),
}

/// The result of a consent decision.
#[derive(Debug, Clone)]
pub enum ConsentOutcome {
    /// The policy denies the grant; the grant is left as it was.
    Denied(EvaluationResult),
    /// The grant after the decision.
    Decided(DeviceCodeGrant),
}

/// The state of a grant in `state` after `action` from `session_id` at `now`:
/// only a pending grant moves.
pub open spec fn transition(state: DeviceCodeGrantState, action: ConsentAction, session_id: u64, now: Timestamp) -> DeviceCodeGrantState {
    match state {
        DeviceCodeGrantState::Pending => match action {
            ConsentAction::Consent => DeviceCodeGrantState::Fulfilled { browser_session_id: session_id, fulfilled_at: now },
            ConsentAction::Reject => DeviceCodeGrantState::Rejected { browser_session_id: session_id, rejected_at: now },
        },
        _ => state,
    }
}

/// The grant after `action`: the same grant, with its state moved.
pub open spec fn decided(grant: DeviceCodeGrant, action: ConsentAction, session_id: u64, now: Timestamp) -> DeviceCodeGrant {
    DeviceCodeGrant { state: transition(grant.state, action, session_id, now), ..grant }
}

/// The consent decision on `grant`, as `consent` takes it.
pub open spec fn consent_spec(
    grant: DeviceCodeGrant,
    action: ConsentAction,
    session_id: u64,
    now: Timestamp,
    policy: Result<EvaluationResult, PolicyError>,
) -> Result<ConsentOutcome, ConsentError> {
    if grant.expires_at < now {
        Err(ConsentError::Expired)
    } else {
        match policy {
            Err(e) => Err(ConsentError::Policy(e)),
            Ok(res) => if res.violations@.len() > 0 {
                Ok(ConsentOutcome::Denied(res))
            } else {
                Ok(ConsentOutcome::Decided(decided(grant, action, session_id, now)))
            },
        }
    }
}

/// Takes the consent decision on `grant`. An expired grant fails whatever
/// the action; a policy error fails closed; violations deny without touching
/// the grant; a grant that is no longer pending comes back unchanged.
pub fn consent(
    grant: DeviceCodeGrant,
    action: ConsentAction,
    session_id: u64,
    now: Timestamp,
    policy: Result<EvaluationResult, PolicyError>,
) -> (r: Result<ConsentOutcome, ConsentError>)
    ensures
        r == consent_spec(grant, action, session_id, now, policy),
{
    if grant.is_expired(now) {
        return Err(ConsentError::Expired);
    }
    let res = match policy {
        Err(e) => {
            return Err(ConsentError::Policy(e));
        },
        Ok(res) => res,
    };
    if !res.valid() {
        return Ok(ConsentOutcome::Denied(res));
    }
    let state = match grant.state {
        DeviceCodeGrantState::Pending => match action {
            ConsentAction::Consent => DeviceCodeGrantState::Fulfilled { browser_session_id: session_id, fulfilled_at: now },
            ConsentAction::Reject => DeviceCodeGrantState::Rejected { browser_session_id: session_id, rejected_at: now },
        },
        other => other,
    };
    Ok(ConsentOutcome::Decided(DeviceCodeGrant { state, ..grant }))
}

/// Takes the consent decision on the stored grant `grant_id` from browser
/// session `session_id`, and stores the grant's new state.
pub fn consent_to_grant(
    repo: &mut Repository,
    grant_id: u64,
    action: ConsentAction,
    session_id: u64,
    now: Timestamp,
    policy: Result<EvaluationResult, PolicyError>,
) -> (r: Result<ConsentOutcome, ConsentError>)
    requires
        old(repo)@.wf(),
    ensures
        final(repo)@.wf(),
        match old(repo)@.device_grant(grant_id) {
            None => r matches Err(ConsentError::NotFound) && final(repo)@ == old(repo)@,
            Some(g) => r == consent_spec(g, action, session_id, now, policy) && match r {
                Ok(ConsentOutcome::Decided(d)) => final(repo)@.device_grant(grant_id) == Some(d)
                    && final(repo)@.sessions == old(repo)@.sessions,
                _ => final(repo)@ == old(repo)@,
            },
        },
{
    let grant = match repo.lookup_device_code_grant(grant_id) {
        Some(g) => g,
        None => {
            return Err(ConsentError::NotFound);
        },
    };
    let out = consent(grant, action, session_id, now, policy);
    if let Ok(ConsentOutcome::Decided(d)) = &out {
        let ghost before = repo@;
        repo.set_device_code_grant_state(grant_id, d.state);
        proof {
            let i = index_of(before.device_grants, grant_id)->Some_0;
            lemma_first_where(before.device_grants, has_id::<DeviceCodeGrant>(grant_id));
            let t = before.device_grants.update(i, *d);
            assert forall|j: int| 0 <= j < before.device_grants.len() implies
                has_id::<DeviceCodeGrant>(grant_id)(#[trigger] before.device_grants[j]) == has_id::<DeviceCodeGrant>(grant_id)(t[j]) by {}
            lemma_first_where_same(before.device_grants, t, has_id::<DeviceCodeGrant>(grant_id));
        }
    }
    out
}

/// What the consent page shows.
#[derive(Debug, Clone)]
pub enum ConsentPage {
    /// Nobody is logged in: go to the login page, then come back to the grant.
    LoginRedirect { grant_id: u64 },
    /// The policy denies the grant: show its violations.
    PolicyViolation(EvaluationResult),
    /// Ask the user to consent to the grant.
    Consent(DeviceCodeGrant),
}

/// What the consent page for `grant_id` shows.
pub open spec fn consent_page_spec(
    grant_id: u64,
    logged_in: bool,
    grant: Option<DeviceCodeGrant>,
    now: Timestamp,
    policy: Result<EvaluationResult, PolicyError>,
) -> Result<ConsentPage, ConsentError> {
    if !logged_in {
        Ok(ConsentPage::LoginRedirect { grant_id })
    } else {
        match grant {
            None => Err(ConsentError::NotFound),
            Some(g) => if g.expires_at < now {
                Err(ConsentError::Expired)
            } else {
                match policy {
                    Err(e) => Err(ConsentError::Policy(e)),
                    Ok(res) => if res.violations@.len() > 0 {
                        Ok(ConsentPage::PolicyViolation(res))
                    } else {
                        Ok(ConsentPage::Consent(g))
                    },
                }
            },
        }
    }
}

/// Decides what the consent page for grant `grant_id` shows, given whether
/// a browser session is logged in, the grant as stored, and the policy's
/// answer on it.
pub fn consent_page(
    grant_id: u64,
    logged_in: bool,
    grant: Option<DeviceCodeGrant>,
    now: Timestamp,
    policy: Result<EvaluationResult, PolicyError>,
) -> (r: Result<ConsentPage, ConsentError>)
    ensures
        r == consent_page_spec(grant_id, logged_in, grant, now, policy),
{
    if !logged_in {
        return Ok(ConsentPage::LoginRedirect { grant_id });
    }
    let g = match grant {
        None => {
            return Err(ConsentError::NotFound);
        },
        Some(g) => g,
    };
    if g.is_expired(now) {
        return Err(ConsentError::Expired);
    }
    match policy {
        Err(e) => Err(ConsentError::Policy(e)),
        Ok(res) => {
            if res.valid() {
                Ok(ConsentPage::Consent(g))
            } else {
                Ok(ConsentPage::PolicyViolation(res))
            }
        },
    }
}

/// Consenting twice is the same as consenting once: the second decision,
/// at any later time and from any session, returns the grant the first one
/// produced.
pub proof fn lemma_consent_idempotent(
    grant: DeviceCodeGrant,
    action: ConsentAction,
    session_id: u64,
    now: Timestamp,
    action2: ConsentAction,
    session_id2: u64,
    now2: Timestamp,
)
    ensures
        decided(decided(grant, action, session_id, now), action2, session_id2, now2) == decided(grant, action, session_id, now),
        decided(grant, action, session_id, now).expires_at == grant.expires_at,
{
}

} // verus!
