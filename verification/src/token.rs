//! The fungible-balance token ledger.
//!
//! The ledger owns a total supply and a per-account balance table (absent
//! accounts read as zero). `mint` raises supply and one balance, `transfer`
//! moves value between two balances, `burn` lowers supply and one balance.
//! Every operation validates all of its preconditions before the first
//! write, so a failing call leaves the ledger untouched, and every
//! successful one preserves the conservation law `total_supply == sum of
//! all balances`.

use vstd::prelude::*;

use crate::table::{Table, distinct_keys};
use crate::{AccountId, Origin};

verus! {

/// The unit of account. Balances and the total supply are this width;
/// exceeding it is a reported error, never a wrap.
pub type Balance = u64;

/// Why a token operation was refused. `BadOrigin` is the authorization
/// oracle's denial, reported before any other precondition is examined;
/// the rest are the ledger's own taxonomy.
#[derive(Clone, Copy, Debug, PartialEq, Eq, Structural)]
pub enum Error {
    /// The caller is not allowed to invoke the operation.
    BadOrigin,
    /// The account's balance cannot cover the requested amount.
    InsufficientBalance,
    /// The amount supplied must be greater than zero.
    AmountMustBePositive,
    /// The operation would push a balance or the total supply past the
    /// representable maximum.
    Overflow,
    /// Burning would drive the total supply below zero; this can only
    /// happen when the conservation law was already broken from outside.
    Underflow,
}

/// The record a successful operation hands to the host's event sink.
#[derive(Clone, Copy, Debug, PartialEq, Eq, Structural)]
pub enum Event {
    /// Tokens were minted for an account.
    Minted { who: AccountId, amount: Balance },
    /// Tokens moved from one account to another.
    Transferred { from: AccountId, to: AccountId, amount: Balance },
    /// Tokens were burned from an account.
    Burned { who: AccountId, amount: Balance },
}

/// The sum of all balances held in the rows `s`.
pub open spec fn sum_balances(s: Seq<(u64, Balance)>) -> int
    decreases s.len(),
{
    if s.len() == 0 {
        0
    } else {
        sum_balances(s.drop_last()) + s.last().1
    }
}

/// Appending a row raises the sum by the row's balance.
pub proof fn lemma_sum_push(s: Seq<(u64, Balance)>, e: (u64, Balance))
    ensures
        sum_balances(s.push(e)) == sum_balances(s) + e.1,
{
    assert(s.push(e).last() == e);
    assert(s.push(e).drop_last() =~= s);
}

/// Replacing the row at `i` moves the sum by the difference of the balances.
pub proof fn lemma_sum_update(s: Seq<(u64, Balance)>, i: int, e: (u64, Balance))
    requires
        0 <= i < s.len(),
    ensures
        sum_balances(s.update(i, e)) == sum_balances(s) - s[i].1 + e.1,
    decreases s.len(),
{
    let s2 = s.update(i, e);
    if i == s.len() - 1 {
        assert(s2.last() == e);
        assert(s2.drop_last() =~= s.drop_last());
    } else {
        assert(s2.last() == s.last());
        assert(s2.drop_last() =~= s.drop_last().update(i, e));
        lemma_sum_update(s.drop_last(), i, e);
    }
}

/// The token ledger's whole state: the total issuance and the balance table.
pub struct Pallet {
    total_supply: Balance,
    balances: Table<Balance>,
}

impl Pallet {
    /// The rows of the balance table.
    pub closed spec fn rows(self) -> Seq<(u64, Balance)> {
        self.balances.rows()
    }

    /// Well-formedness: the balance table holds each account at most once.
    pub open spec fn wf(self) -> bool {
        distinct_keys(self.rows())
    }

    /// The raw table lookup behind [`Pallet::spec_balance_of`].
    pub closed spec fn spec_get_row(self, who: AccountId) -> Option<Balance> {
        self.balances.spec_get(who)
    }

    /// The recorded total issuance.
    pub closed spec fn spec_total_supply(self) -> Balance {
        self.total_supply
    }

    /// The balance of `who`: zero for accounts never written.
    pub open spec fn spec_balance_of(self, who: AccountId) -> Balance {
        match self.spec_get_row(who) {
            Some(v) => v,
            None => 0,
        }
    }

    /// The sum of every account's stored balance.
    pub open spec fn spec_sum(self) -> int {
        sum_balances(self.rows())
    }

    /// The conservation law: the recorded total supply equals the sum of
    /// all balances. Established by [`Pallet::new`] and preserved by every
    /// operation; only direct state injection can break it.
    pub open spec fn conserved(self) -> bool {
        self.spec_total_supply() == self.spec_sum()
    }

    /// A fresh ledger: no supply, every balance zero.
    pub fn new() -> (p: Self)
        ensures
            p.wf(),
            p.conserved(),
            p.spec_total_supply() == 0,
            forall|a: AccountId| p.spec_balance_of(a) == 0,
    {
        let p = Pallet { total_supply: 0, balances: Table::new() };
        p
    }

    /// Read the recorded total issuance.
    pub fn total_supply(&self) -> (r: Balance)
        ensures
            r == self.spec_total_supply(),
    {
        self.total_supply
    }

    /// Read the balance of `who`; accounts never written read as zero.
    pub fn account_balance(&self, who: AccountId) -> (r: Balance)
        requires
            self.wf(),
        ensures
            r == self.spec_balance_of(who),
    {
        match self.balances.get(who) {
            Some(v) => v,
            None => 0,
        }
    }

    /// Overwrite the stored balance of `who` directly, bypassing every
    /// precondition. This mirrors raw writes to the host's store: it can
    /// break the conservation law, which `burn` then reports as
    /// [`Error::Underflow`].
    pub fn set_balance(&mut self, who: AccountId, amount: Balance)
        requires
            old(self).wf(),
        ensures
            final(self).wf(),
            final(self).spec_balance_of(who) == amount,
            forall|a: AccountId| a != who
                ==> final(self).spec_balance_of(a) == old(self).spec_balance_of(a),
            final(self).spec_total_supply() == old(self).spec_total_supply(),
    {
        self.balances.set(who, amount);
    }

    /// Overwrite the recorded total supply directly, bypassing every
    /// precondition; the counterpart of [`Pallet::set_balance`].
    pub fn set_total_supply(&mut self, amount: Balance)
        requires
            old(self).wf(),
        ensures
            final(self).wf(),
            final(self).spec_total_supply() == amount,
            forall|a: AccountId| final(self).spec_balance_of(a) == old(self).spec_balance_of(a),
    {
        self.total_supply = amount;
    }

    /// Mint `amount` new tokens into `to`.
    ///
    /// Only the root origin may mint. The amount must be positive, and
    /// neither the total supply nor the recipient's balance may overflow;
    /// both checks pass before either write happens. On success the supply
    /// and the recipient's balance each grow by `amount` and the returned
    /// [`Event::Minted`] record is what the host forwards to its event sink.
    pub fn mint(&mut self, origin: Origin, to: AccountId, amount: Balance) -> (r: Result<
        Event,
        Error,
    >)
        requires
            old(self).wf(),
        ensures
            final(self).wf(),
            r is Ok <==> {
                &&& origin == Origin::Root
                &&& amount > 0
                &&& old(self).spec_total_supply() + amount <= Balance::MAX
                &&& old(self).spec_balance_of(to) + amount <= Balance::MAX
            },
            r is Ok ==> r == Ok::<Event, Error>(Event::Minted { who: to, amount }),
            r is Ok ==> final(self).spec_total_supply() == old(self).spec_total_supply() + amount,
            r is Ok ==> final(self).spec_balance_of(to) == old(self).spec_balance_of(to) + amount,
            r is Ok ==> forall|a: AccountId| a != to
                ==> final(self).spec_balance_of(a) == old(self).spec_balance_of(a),
            r is Err ==> *final(self) == *old(self),
            origin != Origin::Root ==> r == Err::<Event, Error>(Error::BadOrigin),
            origin == Origin::Root && amount == 0 ==> r == Err::<Event, Error>(
                Error::AmountMustBePositive,
            ),
            origin == Origin::Root && amount > 0 && (old(self).spec_total_supply() + amount
                > Balance::MAX || old(self).spec_balance_of(to) + amount > Balance::MAX) ==> r
                == Err::<Event, Error>(Error::Overflow),
            old(self).conserved() ==> final(self).conserved(),
    {
        if origin != Origin::Root {
            return Err(Error::BadOrigin);
        }
        if amount == 0 {
            return Err(Error::AmountMustBePositive);
        }
        if amount > Balance::MAX - self.total_supply {
            return Err(Error::Overflow);
        }
        let new_total_supply = self.total_supply + amount;
        let to_balance = self.account_balance(to);
        if amount > Balance::MAX - to_balance {
            return Err(Error::Overflow);
        }
        let new_to_balance = to_balance + amount;

        let ghost pre = *self;
        self.total_supply = new_total_supply;
        self.balances.set(to, new_to_balance);
        proof {
            lemma_balance_write_sum(pre, *self, to, new_to_balance);
        }
        Ok(Event::Minted { who: to, amount })
    }

    /// Transfer `amount` from the calling account to `to`.
    ///
    /// Any signed caller may transfer; the sender is the caller itself.
    /// The amount must be positive, covered by the sender's balance, and
    /// must not overflow the receiver; all checks pass before either
    /// balance is written. A self-transfer leaves every balance as it was
    /// but still reports a [`Event::Transferred`] record. The total supply
    /// never changes.
    pub fn transfer(&mut self, origin: Origin, to: AccountId, amount: Balance) -> (r: Result<
        Event,
        Error,
    >)
        requires
            old(self).wf(),
        ensures
            final(self).wf(),
            r is Ok <==> (origin matches Origin::Signed(s) && amount > 0 && old(
                self,
            ).spec_balance_of(s) >= amount && (to == s || old(self).spec_balance_of(to) + amount
                <= Balance::MAX)),
            !(origin matches Origin::Signed(_)) ==> r == Err::<Event, Error>(Error::BadOrigin),
            (origin matches Origin::Signed(s) ==> {
                &&& amount == 0 ==> r == Err::<Event, Error>(Error::AmountMustBePositive)
                &&& amount > 0 && old(self).spec_balance_of(s) < amount ==> r == Err::<
                    Event,
                    Error,
                >(Error::InsufficientBalance)
                &&& amount > 0 && old(self).spec_balance_of(s) >= amount && to != s && old(
                    self,
                ).spec_balance_of(to) + amount > Balance::MAX ==> r == Err::<Event, Error>(
                    Error::Overflow,
                )
                &&& r is Ok ==> r == Ok::<Event, Error>(
                    Event::Transferred { from: s, to, amount },
                )
                &&& r is Ok && to == s ==> forall|a: AccountId|
                    final(self).spec_balance_of(a) == old(self).spec_balance_of(a)
                &&& r is Ok && to != s ==> {
                    &&& final(self).spec_balance_of(s) == old(self).spec_balance_of(s) - amount
                    &&& final(self).spec_balance_of(to) == old(self).spec_balance_of(to) + amount
                    &&& forall|a: AccountId| a != s && a != to ==> final(self).spec_balance_of(a)
                        == old(self).spec_balance_of(a)
                }
            }),
            final(self).spec_total_supply() == old(self).spec_total_supply(),
            r is Err ==> *final(self) == *old(self),
            old(self).conserved() ==> final(self).conserved(),
    {
        let sender = match origin {
            Origin::Signed(s) => s,
            _ => { return Err(Error::BadOrigin) },
        };
        if amount == 0 {
            return Err(Error::AmountMustBePositive);
        }
        let sender_balance = self.account_balance(sender);
        if sender_balance < amount {
            return Err(Error::InsufficientBalance);
        }
        let new_sender_balance = sender_balance - amount;
        let receiver_base = if to == sender {
            new_sender_balance
        } else {
            self.account_balance(to)
        };
        if amount > Balance::MAX - receiver_base {
            return Err(Error::Overflow);
        }
        let new_receiver_balance = receiver_base + amount;

        let ghost pre = *self;
        self.balances.set(sender, new_sender_balance);
        let ghost mid = *self;
        proof {
            lemma_balance_write_sum(pre, mid, sender, new_sender_balance);
        }
        self.balances.set(to, new_receiver_balance);
        proof {
            lemma_balance_write_sum(mid, *self, to, new_receiver_balance);
        }
        Ok(Event::Transferred { from: sender, to, amount })
    }

    /// Burn `amount` from the calling account.
    ///
    /// Any signed caller may burn from their own balance. The amount must
    /// be positive and covered by the caller's balance; the total supply
    /// must also cover it, which can only fail once the conservation law
    /// was broken from outside, and is reported as [`Error::Underflow`]
    /// rather than assumed impossible. Both checks pass before either
    /// write happens.
    pub fn burn(&mut self, origin: Origin, amount: Balance) -> (r: Result<Event, Error>)
        requires
            old(self).wf(),
        ensures
            final(self).wf(),
            r is Ok <==> (origin matches Origin::Signed(s) && amount > 0 && old(
                self,
            ).spec_balance_of(s) >= amount && old(self).spec_total_supply() >= amount),
            !(origin matches Origin::Signed(_)) ==> r == Err::<Event, Error>(Error::BadOrigin),
            (origin matches Origin::Signed(s) ==> {
                &&& amount == 0 ==> r == Err::<Event, Error>(Error::AmountMustBePositive)
                &&& amount > 0 && old(self).spec_balance_of(s) < amount ==> r == Err::<
                    Event,
                    Error,
                >(Error::InsufficientBalance)
                &&& amount > 0 && old(self).spec_balance_of(s) >= amount && old(
                    self,
                ).spec_total_supply() < amount ==> r == Err::<Event, Error>(Error::Underflow)
                &&& r is Ok ==> r == Ok::<Event, Error>(Event::Burned { who: s, amount })
                &&& r is Ok ==> final(self).spec_balance_of(s) == old(self).spec_balance_of(s)
                    - amount
                &&& r is Ok ==> forall|a: AccountId| a != s ==> final(self).spec_balance_of(a)
                    == old(self).spec_balance_of(a)
            }),
            r is Ok ==> final(self).spec_total_supply() == old(self).spec_total_supply() - amount,
            r is Err ==> *final(self) == *old(self),
            old(self).conserved() ==> final(self).conserved(),
    {
        let who = match origin {
            Origin::Signed(s) => s,
            _ => { return Err(Error::BadOrigin) },
        };
        if amount == 0 {
            return Err(Error::AmountMustBePositive);
        }
        let who_balance = self.account_balance(who);
        if who_balance < amount {
            return Err(Error::InsufficientBalance);
        }
        if self.total_supply < amount {
            return Err(Error::Underflow);
        }
        let new_who_balance = who_balance - amount;
        let new_total_supply = self.total_supply - amount;

        let ghost pre = *self;
        self.balances.set(who, new_who_balance);
        self.total_supply = new_total_supply;
        proof {
            lemma_balance_write_sum(pre, *self, who, new_who_balance);
        }
        Ok(Event::Burned { who, amount })
    }
}

/// When `post`'s balance table is `pre`'s with `who` set to `v`, the sum of
/// balances moves by exactly `v - pre.spec_balance_of(who)`.
proof fn lemma_balance_write_sum(pre: Pallet, post: Pallet, who: AccountId, v: Balance)
    requires
        pre.wf(),
        post.wf(),
        pre.spec_get_row(who) is None ==> post.rows() == pre.rows().push((who, v)),
        (pre.spec_get_row(who) matches Some(w) ==> exists|i: int|
            {
                &&& 0 <= i < pre.rows().len()
                &&& pre.rows()[i] == (who, w)
                &&& post.rows() == pre.rows().update(i, (who, v))
            }),
    ensures
        post.spec_sum() == pre.spec_sum() - pre.spec_balance_of(who) + v,
{
    match pre.spec_get_row(who) {
        None => {
            lemma_sum_push(pre.rows(), (who, v));
        },
        Some(w) => {
            let i = choose|i: int|
                {
                    &&& 0 <= i < pre.rows().len()
                    &&& pre.rows()[i] == (who, w)
                    &&& post.rows() == pre.rows().update(i, (who, v))
                };
            lemma_sum_update(pre.rows(), i, (who, v));
        },
    }
}

} // verus!
