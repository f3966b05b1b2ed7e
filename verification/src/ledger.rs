//! The ledger of the balances that are held for wallets.

use vstd::prelude::*;
use crate::model::{balance, covers, credited, debited};
use crate::tables::BalanceByWallet;
use crate::types::{Balance, Error, WalletId};

verus! {

/// The balances held for wallets. A wallet without an entry has a balance of
/// zero.
pub struct Ledger {
    balances: BalanceByWallet,
}

impl View for Ledger {
    type V = Map<WalletId, Balance>;

    closed spec fn view(&self) -> Map<WalletId, Balance> {
        self.balances@
    }
}

impl Ledger {
    /// A ledger without entries.
    pub fn new() -> (ledger: Ledger)
        ensures
            ledger@ == (Map::<WalletId, Balance>::empty()),
    {
        Ledger { balances: BalanceByWallet::new() }
    }

    /// The balance held for `wallet`.
    pub fn balance_of(&self, wallet: WalletId) -> (held: Balance)
        ensures
            held == balance(self@, wallet),
    {
        match self.balances.get(wallet) {
            Some(held) => held,
            None => 0,
        }
    }

    /// Whether `wallet` has an entry of at least `amount`.
    pub fn covers(&self, wallet: WalletId, amount: Balance) -> (enough: bool)
        ensures
            enough == covers(self@, wallet, amount),
    {
        match self.balances.get(wallet) {
            Some(held) => held >= amount,
            None => false,
        }
    }

    /// Adds `amount` to the balance of `wallet`, with a new entry where it had
    /// none. Adding zero changes nothing. A sum that a `Balance` cannot hold is
    /// refused, and nothing changes.
    pub fn credit(&mut self, wallet: WalletId, amount: Balance) -> (r: Result<(), Error>)
        ensures
            balance(old(self)@, wallet) + amount > Balance::MAX ==> r == Err::<(), Error>(
                Error::Overflow,
            ) && final(self)@ == old(self)@,
            balance(old(self)@, wallet) + amount <= Balance::MAX ==> r == Ok::<(), Error>(())
                && final(self)@ == credited(old(self)@, wallet, amount),
    {
        if amount == 0 {
            return Ok(());
        }
        let held = self.balance_of(wallet);
        match held.checked_add(amount) {
            None => Err(Error::Overflow),
            Some(sum) => {
                let _ = self.balances.insert(wallet, sum);
                Ok(())
            },
        }
    }

    /// Takes `amount` from the balance of `wallet`. Where `wallet` has no
    /// entry, or less than `amount`, the call is refused and nothing changes.
    pub fn debit(&mut self, wallet: WalletId, amount: Balance) -> (r: Result<(), Error>)
        ensures
            !covers(old(self)@, wallet, amount) ==> r == Err::<(), Error>(
                Error::InsufficientFunds,
            ) && final(self)@ == old(self)@,
            covers(old(self)@, wallet, amount) ==> r == Ok::<(), Error>(()) && final(self)@
                == debited(old(self)@, wallet, amount),
    {
        match self.balances.get(wallet) {
            Some(held) => {
                if held >= amount {
                    let _ = self.balances.insert(wallet, held - amount);
                    Ok(())
                } else {
                    Err(Error::InsufficientFunds)
                }
            },
            None => Err(Error::InsufficientFunds),
        }
    }

    /// Removes the entry of `wallet` and returns the balance it held: zero
    /// where there was none.
    pub fn withdraw_all(&mut self, wallet: WalletId) -> (held: Balance)
        ensures
            held == balance(old(self)@, wallet),
            final(self)@ == old(self)@.remove(wallet),
    {
        match self.balances.take(wallet) {
            Some(held) => held,
            None => 0,
        }
    }
}

} // verus!
