//! One-time login tokens handed from the SSO flow to legacy clients.

use vstd::prelude::*;

use crate::model::{Record, Timestamp};

verus! {

/// How long, in milliseconds, a fulfilled login token may be exchanged.
pub const LOGIN_TOKEN_WINDOW_MS: i64 = 30000;

/// The state of a login token.
#[derive(Debug, Clone, Copy, PartialEq, Eq, Structural)]
pub enum CompatSsoLoginState {
    /// The SSO flow has not finished yet.
    Pending,
    /// The SSO flow finished with a session; the token can be exchanged.
    Fulfilled { fulfilled_at: Timestamp, session_id: u64 },
    /// The token was exchanged for its session.
    Exchanged { fulfilled_at: Timestamp, exchanged_at: Timestamp, session_id: u64 },
}

/// Why an exchange is refused.
#[derive(Debug, Clone, Copy, PartialEq, Eq, Structural)]
pub enum ExchangeRefusal {
    /// The token was never fulfilled, or was already exchanged.
    InvalidLoginToken,
    /// The token was fulfilled too long ago.
    LoginTookTooLong,
}

/// Whether `now` lies within the exchange window opened at `since`.
pub open spec fn within_window(since: Timestamp, now: Timestamp) -> bool {
    now <= since + LOGIN_TOKEN_WINDOW_MS
}

/// The session a token in `state` may be exchanged for at `now`, or why not.
pub open spec fn exchange_check_spec(state: CompatSsoLoginState, now: Timestamp) -> Result<u64, ExchangeRefusal> {
    match state {
        CompatSsoLoginState::Pending => Err(ExchangeRefusal::InvalidLoginToken),
        CompatSsoLoginState::Fulfilled { fulfilled_at, session_id } => if within_window(fulfilled_at, now) {
            Ok(session_id)
        } else {
            Err(ExchangeRefusal::LoginTookTooLong)
        },
        CompatSsoLoginState::Exchanged { .. } => Err(ExchangeRefusal::InvalidLoginToken),
    }
}

/// Whether `now` lies within the window opened at `since`, without overflow.
fn is_within_window(since: Timestamp, now: Timestamp) -> (r: bool)
    ensures
        r == within_window(since, now),
{
    if since > i64::MAX - LOGIN_TOKEN_WINDOW_MS {
        true
    } else {
        now <= since + LOGIN_TOKEN_WINDOW_MS
    }
}

impl CompatSsoLoginState {
    /// Decides whether a token in this state may be exchanged at `now`.
    pub fn exchange_check(&self, now: Timestamp) -> (r: Result<u64, ExchangeRefusal>)
        ensures
            r == exchange_check_spec(*self, now),
    {
        match self {
            CompatSsoLoginState::Pending => Err(ExchangeRefusal::InvalidLoginToken),
            CompatSsoLoginState::Fulfilled { fulfilled_at, session_id } => {
                if is_within_window(*fulfilled_at, now) {
                    Ok(*session_id)
                } else {
                    Err(ExchangeRefusal::LoginTookTooLong)
                }
            },
            CompatSsoLoginState::Exchanged { .. } => Err(ExchangeRefusal::InvalidLoginToken),
        }
    }

    /// The state after a successful exchange at `now`; unchanged when the
    /// token is not fulfilled.
    pub open spec fn spec_exchanged(self, now: Timestamp) -> CompatSsoLoginState {
        match self {
            CompatSsoLoginState::Fulfilled { fulfilled_at, session_id } => CompatSsoLoginState::Exchanged {
                fulfilled_at,
                exchanged_at: now,
                session_id,
            },
            _ => self,
        }
    }

    /// The state after fulfilment with `session_id` at `now`; unchanged when
    /// the token is not pending.
    pub open spec fn spec_fulfilled(self, now: Timestamp, session_id: u64) -> CompatSsoLoginState {
        match self {
            CompatSsoLoginState::Pending => CompatSsoLoginState::Fulfilled { fulfilled_at: now, session_id },
            _ => self,
        }
    }

    /// Moves a fulfilled token to exchanged; any other state stays as it is.
    pub fn exchanged(self, now: Timestamp) -> (r: CompatSsoLoginState)
        ensures
            r == self.spec_exchanged(now),
    {
        match self {
            CompatSsoLoginState::Fulfilled { fulfilled_at, session_id } => CompatSsoLoginState::Exchanged {
                fulfilled_at,
                exchanged_at: now,
                session_id,
            },
            other => other,
        }
    }

    /// Moves a pending token to fulfilled; any other state stays as it is.
    pub fn fulfilled(self, now: Timestamp, session_id: u64) -> (r: CompatSsoLoginState)
        ensures
            r == self.spec_fulfilled(now, session_id),
    {
        match self {
            CompatSsoLoginState::Pending => CompatSsoLoginState::Fulfilled { fulfilled_at: now, session_id },
            other => other,
        }
    }
}

/// A login token handed out at the end of an SSO flow.
#[derive(Debug)]
pub struct CompatSsoLogin {
    pub id: u64,
    pub login_token: String,
    pub redirect_uri: String,
    pub created_at: Timestamp,
    pub state: CompatSsoLoginState,
}

impl Record for CompatSsoLogin {
    open spec fn spec_id(&self) -> u64 {
        self.id
    }

    fn id(&self) -> (r: u64) {
        self.id
    }

    fn duplicate(&self) -> (r: Self) {
        self.clone()
    }
}

impl Clone for CompatSsoLogin {
    fn clone(&self) -> (r: Self)
        ensures
            r == *self,
    {
        CompatSsoLogin {
            id: self.id,
            login_token: self.login_token.clone(),
            redirect_uri: self.redirect_uri.clone(),
            created_at: self.created_at,
            state: self.state,
        }
    }
}

/// A login token can be exchanged once: after an exchange, every further
/// attempt is refused as an invalid token, whenever it comes.
pub proof fn lemma_single_use(state: CompatSsoLoginState, now: Timestamp, later: Timestamp)
    requires
        exchange_check_spec(state, now) is Ok,
    ensures
        exchange_check_spec(state.spec_exchanged(now), later) == Err::<u64, ExchangeRefusal>(ExchangeRefusal::InvalidLoginToken),
{
}

/// A fulfilled token is exchanged for its session up to 30 seconds after
/// fulfilment, and refused as too late after that.
pub proof fn lemma_exchange_window(fulfilled_at: Timestamp, session_id: u64, now: Timestamp)
    ensures
        now <= fulfilled_at + 30000 ==> exchange_check_spec(
            CompatSsoLoginState::Fulfilled { fulfilled_at, session_id },
            now,
        ) == Ok::<u64, ExchangeRefusal>(session_id),
        now > fulfilled_at + 30000 ==> exchange_check_spec(
            CompatSsoLoginState::Fulfilled { fulfilled_at, session_id },
            now,
        ) == Err::<u64, ExchangeRefusal>(ExchangeRefusal::LoginTookTooLong),
{
}

} // verus!
