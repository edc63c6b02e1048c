//! Rate limiting of password checks, per requester and target user.

use vstd::prelude::*;

use crate::model::{first_where, lemma_first_where, lemma_first_where_is, lemma_first_where_push, lemma_first_where_same};

verus! {

/// A fingerprint of whoever makes a request, derived from its network address.
#[derive(Debug, Clone, Copy, PartialEq, Eq, Structural)]
pub struct RequesterFingerprint {
    pub value: u64,
}

/// Too many failed password checks for one requester and user.
#[derive(Debug, Clone, Copy, PartialEq, Eq, Structural)]
pub struct PasswordCheckLimitedError {
    pub requester: RequesterFingerprint,
    pub user_id: u64,
}

/// The count of consecutive failures of one requester against one user.
#[derive(Debug, Clone, Copy, PartialEq, Eq, Structural)]
pub struct LimiterEntry {
    pub requester: u64,
    pub user_id: u64,
    pub failures: u32,
}

/// The limiter as a threshold and a sequence of counters.
pub struct LimiterView {
    pub threshold: u32,
    pub entries: Seq<LimiterEntry>,
}

/// The predicate of being the counter of `requester` against `user_id`.
pub open spec fn is_pair(requester: u64, user_id: u64) -> spec_fn(LimiterEntry) -> bool {
    |e: LimiterEntry| e.requester == requester && e.user_id == user_id
}

impl LimiterView {
    /// Consecutive failures recorded for the pair.
    pub open spec fn failures(self, requester: u64, user_id: u64) -> nat {
        match first_where(self.entries, is_pair(requester, user_id)) {
            Some(i) => self.entries[i].failures as nat,
            None => 0,
        }
    }

    /// Whether the pair is limited.
    pub open spec fn is_limited(self, requester: u64, user_id: u64) -> bool {
        self.failures(requester, user_id) >= self.threshold
    }

    /// The limiter after setting the pair's count to `n`.
    pub open spec fn with_count(self, requester: u64, user_id: u64, n: u32) -> LimiterView {
        match first_where(self.entries, is_pair(requester, user_id)) {
            Some(i) => LimiterView {
                entries: self.entries.update(i, LimiterEntry { requester, user_id, failures: n }),
                ..self
            },
            None => LimiterView {
                entries: self.entries.push(LimiterEntry { requester, user_id, failures: n }),
                ..self
            },
        }
    }

    /// The limiter after one more failure of the pair, saturating.
    pub open spec fn record_failure(self, requester: u64, user_id: u64) -> LimiterView {
        let f = self.failures(requester, user_id);
        self.with_count(requester, user_id, if f < u32::MAX { (f + 1) as u32 } else { u32::MAX })
    }

    /// The limiter after `k` more failures of the pair.
    pub open spec fn record_failures(self, requester: u64, user_id: u64, k: nat) -> LimiterView
        decreases k,
    {
        if k == 0 {
            self
        } else {
            self.record_failures(requester, user_id, (k - 1) as nat).record_failure(requester, user_id)
        }
    }
}

/// Setting one pair's count sets it and leaves every other pair's count.
pub proof fn lemma_with_count(l: LimiterView, requester: u64, user_id: u64, n: u32)
    ensures
        l.with_count(requester, user_id, n).failures(requester, user_id) == n,
        l.with_count(requester, user_id, n).threshold == l.threshold,
        forall|r: u64, u: u64| !(r == requester && u == user_id) ==>
            #[trigger] l.with_count(requester, user_id, n).failures(r, u) == l.failures(r, u),
{
    let e = LimiterEntry { requester, user_id, failures: n };
    let p = is_pair(requester, user_id);
    lemma_first_where(l.entries, p);
    match first_where(l.entries, p) {
        Some(i) => {
            let t = l.entries.update(i, e);
            assert forall|j: int| 0 <= j < i implies !p(#[trigger] t[j]) by {
                assert(t[j] == l.entries[j]);
            }
            lemma_first_where_is(t, p, i);
            assert forall|r: u64, u: u64| !(r == requester && u == user_id) implies
                #[trigger] l.with_count(requester, user_id, n).failures(r, u) == l.failures(r, u) by {
                let q = is_pair(r, u);
                assert forall|j: int| 0 <= j < l.entries.len() implies q(#[trigger] l.entries[j]) == q(t[j]) by {
                    if j == i {
                        assert(p(l.entries[j]));
                    }
                }
                lemma_first_where_same(l.entries, t, q);
                lemma_first_where(t, q);
            }
        },
        None => {
            lemma_first_where_push(l.entries, e, p);
            assert forall|r: u64, u: u64| !(r == requester && u == user_id) implies
                #[trigger] l.with_count(requester, user_id, n).failures(r, u) == l.failures(r, u) by {
                let q = is_pair(r, u);
                lemma_first_where_push(l.entries, e, q);
                lemma_first_where(l.entries, q);
                if let Some(k) = first_where(l.entries, q) {
                    assert(l.entries.push(e)[k] == l.entries[k]);
                }
            }
        },
    }
}

/// A limiter keyed by requester and user, counting consecutive failed
/// password checks. Successful checks are not counted and clear the count.
#[derive(Debug, Clone)]
pub struct Limiter {
    threshold: u32,
    entries: Vec<LimiterEntry>,
}

impl View for Limiter {
    type V = LimiterView;

    closed spec fn view(&self) -> LimiterView {
        LimiterView { threshold: self.threshold, entries: self.entries@ }
    }
}

impl Limiter {
    /// A limiter that refuses checks after `threshold` consecutive failures.
    pub fn new(threshold: u32) -> (r: Limiter)
        ensures
            r@.threshold == threshold,
            forall|q: u64, u: u64| #[trigger] r@.failures(q, u) == 0,
    {
        Limiter { threshold, entries: Vec::new() }
    }

    /// The number of consecutive failures after which checks are refused.
    pub fn threshold(&self) -> (r: u32)
        ensures
            r == self@.threshold,
    {
        self.threshold
    }

    fn position(&self, requester: u64, user_id: u64) -> (r: Option<usize>)
        ensures
            r matches Some(i) ==> first_where(self@.entries, is_pair(requester, user_id)) == Some(i as int)
                && i < self@.entries.len(),
            r is None ==> first_where(self@.entries, is_pair(requester, user_id)) is None,
    {
        let mut i: usize = 0;
        while i < self.entries.len()
            invariant
                i <= self.entries@.len(),
                forall|j: int| 0 <= j < i ==> !is_pair(requester, user_id)(#[trigger] self.entries@[j]),
            decreases self.entries.len() - i,
        {
            let e = self.entries[i];
            if e.requester == requester && e.user_id == user_id {
                proof { lemma_first_where_is(self.entries@, is_pair(requester, user_id), i as int); }
                return Some(i);
            }
            i = i + 1;
        }
        proof { lemma_first_where(self.entries@, is_pair(requester, user_id)); }
        None
    }

    /// Consecutive failures recorded for the pair.
    pub fn failures(&self, requester: RequesterFingerprint, user_id: u64) -> (r: u32)
        ensures
            r == self@.failures(requester.value, user_id),
    {
        match self.position(requester.value, user_id) {
            Some(i) => self.entries[i].failures,
            None => 0,
        }
    }

    /// Checks whether a password check of `user_id` by `requester` may go ahead.
    pub fn check_password(&self, requester: RequesterFingerprint, user_id: u64) -> (r: Result<(), PasswordCheckLimitedError>)
        ensures
            r is Ok <==> !self@.is_limited(requester.value, user_id),
            r matches Err(e) ==> e == (PasswordCheckLimitedError { requester, user_id }),
    {
        if self.failures(requester, user_id) >= self.threshold {
            Err(PasswordCheckLimitedError { requester, user_id })
        } else {
            Ok(())
        }
    }

    fn set_count(&mut self, requester: u64, user_id: u64, n: u32)
        ensures
            final(self)@ == old(self)@.with_count(requester, user_id, n),
    {
        let e = LimiterEntry { requester, user_id, failures: n };
        match self.position(requester, user_id) {
            Some(i) => {
                self.entries.set(i, e);
            },
            None => {
                self.entries.push(e);
            },
        }
    }

    /// Records a failed password check of the pair.
    pub fn record_failure(&mut self, requester: RequesterFingerprint, user_id: u64)
        ensures
            final(self)@ == old(self)@.record_failure(requester.value, user_id),
    {
        let f = self.failures(requester, user_id);
        let n = if f < u32::MAX { f + 1 } else { u32::MAX };
        self.set_count(requester.value, user_id, n);
    }

    /// Records a successful password check of the pair: its count starts over.
    pub fn record_success(&mut self, requester: RequesterFingerprint, user_id: u64)
        ensures
            final(self)@ == old(self)@.with_count(requester.value, user_id, 0),
    {
        self.set_count(requester.value, user_id, 0);
    }

    /// Clears every count; an administrative action.
    pub fn reset(&mut self)
        ensures
            final(self)@.threshold == old(self)@.threshold,
            forall|q: u64, u: u64| #[trigger] final(self)@.failures(q, u) == 0,
    {
        self.entries = Vec::new();
    }
}

/// After exactly `threshold` consecutive failures of a pair that had none,
/// its next password check is refused, and none before that is.
pub proof fn lemma_limited_after_threshold(l: LimiterView, requester: u64, user_id: u64, k: nat)
    requires
        l.failures(requester, user_id) == 0,
    ensures
        l.record_failures(requester, user_id, k).failures(requester, user_id) == (if k <= u32::MAX { k } else { u32::MAX as nat }),
        l.record_failures(requester, user_id, k).threshold == l.threshold,
        l.record_failures(requester, user_id, k).is_limited(requester, user_id) <==> (k >= l.threshold),
    decreases k,
{
    if k > 0 {
        let prev = l.record_failures(requester, user_id, (k - 1) as nat);
        lemma_limited_after_threshold(l, requester, user_id, (k - 1) as nat);
        let f = prev.failures(requester, user_id);
        lemma_with_count(prev, requester, user_id, if f < u32::MAX { (f + 1) as u32 } else { u32::MAX });
    }
}

/// Failures of one pair never change another pair's count.
pub proof fn lemma_pairs_independent(l: LimiterView, requester: u64, user_id: u64, r: u64, u: u64)
    requires
        !(r == requester && u == user_id),
    ensures
        l.record_failure(requester, user_id).failures(r, u) == l.failures(r, u),
{
    let f = l.failures(requester, user_id);
    lemma_with_count(l, requester, user_id, if f < u32::MAX { (f + 1) as u32 } else { u32::MAX });
}

} // verus!
