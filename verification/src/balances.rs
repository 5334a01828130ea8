//! The balances pallet: a ledger mapping account identifiers to `u128`
//! balances, with read, write, and the balance-transfer state transition.
//!
//! An account with no stored entry has balance zero; entries are only ever
//! inserted or overwritten, never removed.

use crate::strmap::StrMap;
use vstd::prelude::*;

verus! {

/// Why a transfer was rejected. The four kinds are mutually exclusive and
/// checked in this order.
#[derive(Clone, Copy, PartialEq, Eq, Debug)]
pub enum TransferError {
    /// The requested amount was zero.
    ZeroAmount,
    /// The sender's balance is strictly less than the amount.
    InsufficientBalance,
    /// The recipient's balance plus the amount exceeds `u128::MAX`.
    RecipientOverflow,
    /// Defensive guard: the sender's balance minus the amount would be
    /// negative. Unreachable while the insufficiency check precedes it.
    SenderUnderflow,
}

/// The outcome a transfer is required to have, given the sender's and the
/// recipient's balances before the call and the requested amount. For a
/// self-transfer both balance arguments are the account's one balance.
pub open spec fn spec_transfer_outcome(
    from_balance: u128,
    to_balance: u128,
    amount: u128,
) -> Result<(), TransferError> {
    if amount == 0 {
        Err(TransferError::ZeroAmount)
    } else if from_balance < amount {
        Err(TransferError::InsufficientBalance)
    } else if to_balance + amount > u128::MAX {
        Err(TransferError::RecipientOverflow)
    } else {
        Ok(())
    }
}

/// The balances module: tracks how much balance each account has.
pub struct Pallet {
    balances: StrMap<u128>,
}

impl View for Pallet {
    type V = Map<Seq<char>, u128>;

    closed spec fn view(&self) -> Map<Seq<char>, u128> {
        self.balances@
    }
}

impl Pallet {
    /// Well-formedness of the underlying store; established by `new` and
    /// preserved by every method.
    pub closed spec fn wf(&self) -> bool {
        self.balances.wf()
    }

    /// The balance of `who`: the stored value, or zero for an account with
    /// no entry.
    pub open spec fn spec_balance(&self, who: Seq<char>) -> u128 {
        if self@.contains_key(who) {
            self@[who]
        } else {
            0
        }
    }

    /// Create a new instance of the balances module, with no entries.
    pub fn new() -> (r: Self)
        ensures
            r.wf(),
            r@ == Map::<Seq<char>, u128>::empty(),
    {
        Pallet { balances: StrMap::new() }
    }

    /// Set the balance of account `who` to `amount`, overwriting any prior
    /// balance.
    pub fn set_balance(&mut self, who: &String, amount: u128)
        requires
            old(self).wf(),
        ensures
            final(self).wf(),
            final(self)@ == old(self)@.insert(who@, amount),
    {
        self.balances.set(who, amount);
    }

    /// Get the balance of account `who`; zero if the account has no stored
    /// balance.
    pub fn balance(&self, who: &String) -> (r: u128)
        requires
            self.wf(),
        ensures
            r == self.spec_balance(who@),
    {
        match self.balances.get(who) {
            Some(v) => *v,
            None => 0,
        }
    }

    /// Transfer `amount` from `caller` to `to`.
    ///
    /// The outcome is exactly `spec_transfer_outcome` of the two prior
    /// balances and the amount. On any error the ledger is unchanged. On
    /// success, either both the debit and the credit are applied (distinct
    /// accounts) or, for a self-transfer, the debit and credit cancel and
    /// the ledger is unchanged.
    pub fn transfer(&mut self, caller: String, to: String, amount: u128) -> (r: Result<
        (),
        TransferError,
    >)
        requires
            old(self).wf(),
        ensures
            final(self).wf(),
            r == spec_transfer_outcome(
                old(self).spec_balance(caller@),
                old(self).spec_balance(to@),
                amount,
            ),
            r is Err ==> final(self)@ == old(self)@,
            r is Ok ==> (if caller@ == to@ {
                final(self)@ == old(self)@
            } else {
                final(self)@ == old(self)@.insert(
                    caller@,
                    (old(self).spec_balance(caller@) - amount) as u128,
                ).insert(to@, (old(self).spec_balance(to@) + amount) as u128)
            }),
    {
        if amount == 0 {
            return Err(TransferError::ZeroAmount);
        }
        let from_balance = self.balance(&caller);
        if from_balance < amount {
            return Err(TransferError::InsufficientBalance);
        }
        let to_balance = self.balance(&to);
        let new_to_balance = match to_balance.checked_add(amount) {
            Some(v) => v,
            None => {
                return Err(TransferError::RecipientOverflow);
            },
        };
        let new_from_balance = match from_balance.checked_sub(amount) {
            Some(v) => v,
            None => {
                return Err(TransferError::SenderUnderflow);
            },
        };
        if caller == to {
            // The debit and the credit cancel: the ledger is unchanged.
            return Ok(());
        }
        self.set_balance(&caller, new_from_balance);
        self.set_balance(&to, new_to_balance);
        Ok(())
    }
}

/// An account never written has balance zero: on an empty ledger every
/// account's balance is zero, and (`lemma_set_balance_frame`) writing one
/// account leaves every other account's balance as it was.
pub proof fn lemma_fresh_balance_zero(p: Pallet, who: Seq<char>)
    requires
        p@ == Map::<Seq<char>, u128>::empty(),
    ensures
        p.spec_balance(who) == 0,
{
}

/// Writing the balance of one account leaves the balance of every other
/// account unchanged. The premise on `after` is what `set_balance` ensures.
pub proof fn lemma_set_balance_frame(
    before: Pallet,
    after: Pallet,
    written: Seq<char>,
    amount: u128,
    other: Seq<char>,
)
    requires
        other != written,
        after@ == before@.insert(written, amount),
    ensures
        after.spec_balance(other) == before.spec_balance(other),
{
}

/// Setting a balance and reading it back returns the value just written.
/// The premise on `after` is what `set_balance` ensures.
pub proof fn lemma_set_then_get(before: Pallet, after: Pallet, who: Seq<char>, amount: u128)
    requires
        after@ == before@.insert(who, amount),
    ensures
        after.spec_balance(who) == amount,
{
}

/// A transfer of amount zero is rejected with `ZeroAmount`, whatever the
/// balances of the two accounts.
pub proof fn lemma_transfer_zero_amount(p: Pallet, from: Seq<char>, to: Seq<char>)
    ensures
        spec_transfer_outcome(p.spec_balance(from), p.spec_balance(to), 0) == Err::<
            (),
            TransferError,
        >(TransferError::ZeroAmount),
{
}

/// A transfer of more than the sender's balance is rejected with
/// `InsufficientBalance`, and — the premise on `after` being what `transfer`
/// ensures on any error — both balances are left unchanged.
pub proof fn lemma_transfer_insufficient(
    before: Pallet,
    after: Pallet,
    from: Seq<char>,
    to: Seq<char>,
    amount: u128,
)
    requires
        before.spec_balance(from) < amount,
        after@ == before@,
    ensures
        spec_transfer_outcome(before.spec_balance(from), before.spec_balance(to), amount) == Err::<
            (),
            TransferError,
        >(TransferError::InsufficientBalance),
        after.spec_balance(from) == before.spec_balance(from),
        after.spec_balance(to) == before.spec_balance(to),
{
}

/// A transfer between distinct accounts of a non-zero amount the sender can
/// cover, with no overflow at the recipient, succeeds; the sender's balance
/// decreases by exactly the amount, the recipient's increases by exactly the
/// amount, and their total is conserved. The premise on `after` is what
/// `transfer` ensures on success for distinct accounts.
pub proof fn lemma_transfer_success(
    before: Pallet,
    after: Pallet,
    from: Seq<char>,
    to: Seq<char>,
    amount: u128,
)
    requires
        from != to,
        amount != 0,
        before.spec_balance(from) >= amount,
        before.spec_balance(to) + amount <= u128::MAX,
        after@ == before@.insert(from, (before.spec_balance(from) - amount) as u128).insert(
            to,
            (before.spec_balance(to) + amount) as u128,
        ),
    ensures
        spec_transfer_outcome(before.spec_balance(from), before.spec_balance(to), amount) == Ok::<
            (),
            TransferError,
        >(()),
        after.spec_balance(from) == before.spec_balance(from) - amount,
        after.spec_balance(to) == before.spec_balance(to) + amount,
        after.spec_balance(from) + after.spec_balance(to) == before.spec_balance(from)
            + before.spec_balance(to),
{
}

/// A self-transfer of a non-zero amount the account can cover, whose credit
/// does not overflow, succeeds and leaves the account's balance unchanged.
/// The premise on `after` is what `transfer` ensures on a successful
/// self-transfer: the ledger is unchanged.
pub proof fn lemma_self_transfer(before: Pallet, after: Pallet, who: Seq<char>, amount: u128)
    requires
        amount != 0,
        before.spec_balance(who) >= amount,
        before.spec_balance(who) + amount <= u128::MAX,
        after@ == before@,
    ensures
        spec_transfer_outcome(before.spec_balance(who), before.spec_balance(who), amount) == Ok::<
            (),
            TransferError,
        >(()),
        after.spec_balance(who) == before.spec_balance(who),
{
}

} // verus!
