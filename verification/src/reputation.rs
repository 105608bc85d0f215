//! The bounded reputation ledger.
//!
//! The ledger owns a per-account signed score, clamped to a configured
//! range `[min_score, max_score]`; accounts never written read as the
//! configured default. `update_reputation` applies a signed delta under
//! saturating arithmetic and clamps the result, `reset_reputation` and
//! `initialize_reputation` write the default back. Administration is gated
//! on the configured admin account; the ledger has no failure of its own
//! beyond that denial.

use vstd::prelude::*;

use crate::table::{Table, distinct_keys};
use crate::{AccountId, Origin};

verus! {

/// A per-account reputation score; negative values are meaningful.
pub type ReputationScore = i64;

/// An opaque tag attached to a score change for audit traceability; the
/// ledger stores and reports it but never interprets it.
pub type ReasonCode = u8;

/// Why a reputation operation was refused: only the authorization oracle's
/// denial, since every authorized call succeeds.
#[derive(Clone, Copy, Debug, PartialEq, Eq, Structural)]
pub enum Error {
    /// The caller is not allowed to invoke the operation.
    BadOrigin,
}

/// The record a successful operation hands to the host's event sink.
#[derive(Clone, Copy, Debug, PartialEq, Eq, Structural)]
pub enum Event {
    /// A score changed. `change` is the requested delta, not the effective
    /// one after clamping, so the audit trail keeps intent and outcome
    /// apart.
    ReputationUpdated {
        who: AccountId,
        new_score: ReputationScore,
        change: ReputationScore,
        reason: ReasonCode,
    },
    /// A score went back to the configured default.
    ReputationReset { who: AccountId, new_score: ReputationScore },
    /// An account was explicitly put at the configured default. Emitted
    /// even when the account already read as default: the write is
    /// idempotent, the notification is not.
    ReputationInitialized { who: AccountId, initial_score: ReputationScore },
}

/// `a + b` capped at the representable range instead of wrapping.
pub open spec fn spec_saturating_add(a: i64, b: i64) -> i64 {
    if a + b > i64::MAX {
        i64::MAX
    } else if a + b < i64::MIN {
        i64::MIN
    } else {
        (a + b) as i64
    }
}

/// `v` restricted to the closed interval `[lo, hi]`.
pub open spec fn spec_clamp(v: i64, lo: i64, hi: i64) -> i64
    recommends
        lo <= hi,
{
    if v < lo {
        lo
    } else if v > hi {
        hi
    } else {
        v
    }
}

/// The reputation ledger's whole state: the clamp configuration, the admin
/// account, and the score table.
pub struct Pallet {
    admin: AccountId,
    min_score: ReputationScore,
    max_score: ReputationScore,
    default_score: ReputationScore,
    scores: Table<ReputationScore>,
}

impl Pallet {
    /// The rows of the score table.
    pub closed spec fn rows(self) -> Seq<(u64, ReputationScore)> {
        self.scores.rows()
    }

    /// The account whose signature the admin gate accepts.
    pub closed spec fn spec_admin(self) -> AccountId {
        self.admin
    }

    /// The configured lower clamp bound.
    pub closed spec fn spec_min_score(self) -> ReputationScore {
        self.min_score
    }

    /// The configured upper clamp bound.
    pub closed spec fn spec_max_score(self) -> ReputationScore {
        self.max_score
    }

    /// The configured score of accounts never written.
    pub closed spec fn spec_default_score(self) -> ReputationScore {
        self.default_score
    }

    /// The raw table lookup behind [`Pallet::spec_score_of`].
    pub closed spec fn spec_get_row(self, who: AccountId) -> Option<ReputationScore> {
        self.scores.spec_get(who)
    }

    /// Well-formedness: the score table holds each account at most once
    /// and the configuration orders `min_score <= default_score <=
    /// max_score`.
    pub open spec fn wf(self) -> bool {
        &&& distinct_keys(self.rows())
        &&& self.spec_min_score() <= self.spec_default_score() <= self.spec_max_score()
    }

    /// The score of `who`: the configured default for accounts never
    /// written.
    pub open spec fn spec_score_of(self, who: AccountId) -> ReputationScore {
        match self.spec_get_row(who) {
            Some(v) => v,
            None => self.spec_default_score(),
        }
    }

    /// The clamp law: every account's score lies in the configured range.
    /// Established by [`Pallet::new`] and preserved by every operation;
    /// only direct state injection can break it.
    pub open spec fn in_bounds(self) -> bool {
        forall|a: AccountId|
            self.spec_min_score() <= #[trigger] self.spec_score_of(a) <= self.spec_max_score()
    }

    /// The score `update_reputation` leaves on `who` when asked to move it
    /// by `change`: a saturating add, then the clamp.
    pub open spec fn spec_updated_score(self, who: AccountId, change: ReputationScore) -> ReputationScore {
        spec_clamp(
            spec_saturating_add(self.spec_score_of(who), change),
            self.spec_min_score(),
            self.spec_max_score(),
        )
    }

    /// The configuration and admin gate of `other` are those of `self`.
    pub open spec fn same_config(self, other: Pallet) -> bool {
        &&& self.spec_admin() == other.spec_admin()
        &&& self.spec_min_score() == other.spec_min_score()
        &&& self.spec_max_score() == other.spec_max_score()
        &&& self.spec_default_score() == other.spec_default_score()
    }

    /// A fresh ledger under the given configuration: every account reads
    /// as `default_score`.
    pub fn new(
        admin: AccountId,
        min_score: ReputationScore,
        max_score: ReputationScore,
        default_score: ReputationScore,
    ) -> (p: Self)
        requires
            min_score <= default_score <= max_score,
        ensures
            p.wf(),
            p.in_bounds(),
            p.spec_admin() == admin,
            p.spec_min_score() == min_score,
            p.spec_max_score() == max_score,
            p.spec_default_score() == default_score,
            forall|a: AccountId| p.spec_score_of(a) == default_score,
    {
        let p = Pallet { admin, min_score, max_score, default_score, scores: Table::new() };
        p
    }

    /// Read the score of `who`; accounts never written read as the default.
    pub fn get_score(&self, who: AccountId) -> (r: ReputationScore)
        requires
            self.wf(),
        ensures
            r == self.spec_score_of(who),
    {
        match self.scores.get(who) {
            Some(v) => v,
            None => self.default_score,
        }
    }

    /// Read the score of `who`: the storage getter, identical to
    /// [`Pallet::get_score`].
    pub fn reputation_scores(&self, who: AccountId) -> (r: ReputationScore)
        requires
            self.wf(),
        ensures
            r == self.spec_score_of(who),
    {
        self.get_score(who)
    }

    /// Write the stored score of `who` directly, with no authorization
    /// check and no clamping, as a raw write to the host's store can. A
    /// value outside the configured range breaks the clamp law until an
    /// operation next touches the account.
    pub fn set_score(&mut self, who: AccountId, value: ReputationScore)
        requires
            old(self).wf(),
        ensures
            final(self).wf(),
            old(self).same_config(*final(self)),
            final(self).spec_score_of(who) == value,
            forall|a: AccountId| a != who
                ==> final(self).spec_score_of(a) == old(self).spec_score_of(a),
    {
        self.scores.set(who, value);
    }

    /// Update the score of `target_account_id` by `score_change`.
    ///
    /// Only the configured admin account, calling signed, may update.
    /// The delta may be any signed value, zero included: the current score
    /// moves by it under saturating addition and the result is clamped to
    /// the configured range, so the write is always in bounds. The
    /// returned [`Event::ReputationUpdated`] record carries the requested
    /// delta, not the effective one.
    pub fn update_reputation(
        &mut self,
        origin: Origin,
        target_account_id: AccountId,
        score_change: ReputationScore,
        reason_code: ReasonCode,
    ) -> (r: Result<Event, Error>)
        requires
            old(self).wf(),
        ensures
            final(self).wf(),
            old(self).same_config(*final(self)),
            r is Ok <==> origin == Origin::Signed(old(self).spec_admin()),
            r is Err ==> r == Err::<Event, Error>(Error::BadOrigin) && *final(self) == *old(self),
            r is Ok ==> {
                &&& final(self).spec_score_of(target_account_id) == old(self).spec_updated_score(
                    target_account_id,
                    score_change,
                )
                &&& forall|a: AccountId| a != target_account_id ==> final(self).spec_score_of(a)
                    == old(self).spec_score_of(a)
                &&& r == Ok::<Event, Error>(
                    Event::ReputationUpdated {
                        who: target_account_id,
                        new_score: old(self).spec_updated_score(target_account_id, score_change),
                        change: score_change,
                        reason: reason_code,
                    },
                )
                &&& old(self).spec_min_score() <= final(self).spec_score_of(target_account_id)
                    <= old(self).spec_max_score()
            },
            old(self).in_bounds() ==> final(self).in_bounds(),
    {
        if origin != Origin::Signed(self.admin) {
            return Err(Error::BadOrigin);
        }
        self._update_score_unsafe(target_account_id, score_change, reason_code)
    }

    /// Update the score of `who` by `score_change` with no authorization
    /// gate: the read-modify-write shared by `update_reputation` and any
    /// in-host composition that carries its own authority. Always
    /// succeeds; the write is the saturated, clamped sum.
    pub fn _update_score_unsafe(
        &mut self,
        who: AccountId,
        score_change: ReputationScore,
        reason: ReasonCode,
    ) -> (r: Result<Event, Error>)
        requires
            old(self).wf(),
        ensures
            final(self).wf(),
            old(self).same_config(*final(self)),
            r is Ok,
            final(self).spec_score_of(who) == old(self).spec_updated_score(who, score_change),
            forall|a: AccountId| a != who
                ==> final(self).spec_score_of(a) == old(self).spec_score_of(a),
            r == Ok::<Event, Error>(
                Event::ReputationUpdated {
                    who,
                    new_score: old(self).spec_updated_score(who, score_change),
                    change: score_change,
                    reason,
                },
            ),
            old(self).spec_min_score() <= final(self).spec_score_of(who) <= old(
                self,
            ).spec_max_score(),
            old(self).in_bounds() ==> final(self).in_bounds(),
    {
        let current_score = self.get_score(who);
        let new_score_unclamped = saturating_add(current_score, score_change);
        let new_score = clamp_score(new_score_unclamped, self.min_score, self.max_score);
        self.scores.set(who, new_score);
        proof {
            lemma_write_in_bounds(*old(self), *self, who);
        }
        Ok(Event::ReputationUpdated { who, new_score, change: score_change, reason })
    }

    /// Reset the score of `target_account_id` to the configured default.
    ///
    /// Only the configured admin account, calling signed, may reset.
    pub fn reset_reputation(&mut self, origin: Origin, target_account_id: AccountId) -> (r: Result<
        Event,
        Error,
    >)
        requires
            old(self).wf(),
        ensures
            final(self).wf(),
            old(self).same_config(*final(self)),
            r is Ok <==> origin == Origin::Signed(old(self).spec_admin()),
            r is Err ==> r == Err::<Event, Error>(Error::BadOrigin) && *final(self) == *old(self),
            r is Ok ==> {
                &&& final(self).spec_score_of(target_account_id) == old(self).spec_default_score()
                &&& forall|a: AccountId| a != target_account_id ==> final(self).spec_score_of(a)
                    == old(self).spec_score_of(a)
                &&& r == Ok::<Event, Error>(
                    Event::ReputationReset {
                        who: target_account_id,
                        new_score: old(self).spec_default_score(),
                    },
                )
            },
            old(self).in_bounds() ==> final(self).in_bounds(),
    {
        if origin != Origin::Signed(self.admin) {
            return Err(Error::BadOrigin);
        }
        let default_score = self.default_score;
        self.scores.set(target_account_id, default_score);
        proof {
            lemma_write_in_bounds(*old(self), *self, target_account_id);
        }
        Ok(Event::ReputationReset { who: target_account_id, new_score: default_score })
    }

    /// Put `target_account_id` explicitly at the configured default.
    ///
    /// Deliberately loosely gated: any authenticated caller — root or any
    /// signed account — may initialize any target. The write is idempotent
    /// in state, but a record is returned even when the account already
    /// read as default.
    pub fn initialize_reputation(
        &mut self,
        origin: Origin,
        target_account_id: AccountId,
    ) -> (r: Result<Event, Error>)
        requires
            old(self).wf(),
        ensures
            final(self).wf(),
            old(self).same_config(*final(self)),
            r is Ok <==> origin != Origin::Unsigned,
            r is Err ==> r == Err::<Event, Error>(Error::BadOrigin) && *final(self) == *old(self),
            r is Ok ==> {
                &&& final(self).spec_score_of(target_account_id) == old(self).spec_default_score()
                &&& forall|a: AccountId| a != target_account_id ==> final(self).spec_score_of(a)
                    == old(self).spec_score_of(a)
                &&& r == Ok::<Event, Error>(
                    Event::ReputationInitialized {
                        who: target_account_id,
                        initial_score: old(self).spec_default_score(),
                    },
                )
            },
            old(self).in_bounds() ==> final(self).in_bounds(),
    {
        if origin == Origin::Unsigned {
            return Err(Error::BadOrigin);
        }
        let default_score = self.default_score;
        self.scores.set(target_account_id, default_score);
        proof {
            lemma_write_in_bounds(*old(self), *self, target_account_id);
        }
        Ok(Event::ReputationInitialized { who: target_account_id, initial_score: default_score })
    }
}

/// A single write that lands inside the configured range preserves the
/// clamp law.
proof fn lemma_write_in_bounds(pre: Pallet, post: Pallet, who: AccountId)
    requires
        pre.same_config(post),
        forall|a: AccountId| a != who ==> #[trigger] post.spec_score_of(a) == pre.spec_score_of(a),
        post.spec_min_score() <= post.spec_score_of(who) <= post.spec_max_score(),
    ensures
        pre.in_bounds() ==> post.in_bounds(),
{
    if pre.in_bounds() {
        assert forall|a: AccountId|
            post.spec_min_score() <= #[trigger] post.spec_score_of(a)
                <= post.spec_max_score() by {
            if a != who {
                assert(pre.spec_min_score() <= pre.spec_score_of(a) <= pre.spec_max_score());
            }
        }
    }
}

/// `a + b` capped at `i64`'s range instead of wrapping.
fn saturating_add(a: i64, b: i64) -> (r: i64)
    ensures
        r == spec_saturating_add(a, b),
{
    if b >= 0 {
        if a > i64::MAX - b {
            i64::MAX
        } else {
            a + b
        }
    } else {
        if a < i64::MIN - b {
            i64::MIN
        } else {
            a + b
        }
    }
}

/// `v` restricted to `[lo, hi]`.
fn clamp_score(v: i64, lo: i64, hi: i64) -> (r: i64)
    requires
        lo <= hi,
    ensures
        r == spec_clamp(v, lo, hi),
{
    if v < lo {
        lo
    } else if v > hi {
        hi
    } else {
        v
    }
}

} // verus!
