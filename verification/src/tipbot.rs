//! The operations: binding with a deposit, unbinding with a refund, tipping,
//! and what only the owner may do.
//!
//! No operation pays anyone. One that owes a payment answers with
//! [`Step::Pay`] and changes nothing; the environment makes the payment and
//! hands the outcome to [`Tipbot::settle`], which alone applies the change. An
//! operation that fails, at either stage, leaves the state as it was.

use vstd::prelude::*;
use crate::ledger::Ledger;
use crate::model::State;
use crate::registry::Registry;
use crate::types::{Balance, Error, Payment, Pending, Step, TelegramId, WalletId};

verus! {

/// The owner, the registry of bindings and the ledger of balances.
pub struct Tipbot {
    owner: WalletId,
    registry: Registry,
    ledger: Ledger,
}

impl View for Tipbot {
    type V = State;

    closed spec fn view(&self) -> State {
        State { owner: self.owner, bindings: self.registry@, balances: self.ledger@ }
    }
}

impl Tipbot {
    /// The bindings are one to one, and only bound wallets have a ledger
    /// entry.
    pub open spec fn wf(&self) -> bool {
        self@.wf()
    }

    /// A state without bindings and balances, owned by `owner`.
    pub fn new(owner: WalletId) -> (bot: Tipbot)
        ensures
            bot.wf(),
            bot@ == State::initial(owner),
    {
        Tipbot { owner, registry: Registry::new(), ledger: Ledger::new() }
    }

    /// The platform identity of `account`, or of `caller` where no account is
    /// given.
    pub fn telegram_id_of(
        &self,
        caller: WalletId,
        account: Option<WalletId>,
    ) -> (found: Option<TelegramId>)
        ensures
            account.is_some() ==> found == self@.platform_of(account.unwrap()),
            account.is_none() ==> found == self@.platform_of(caller),
    {
        let address = match account {
            Some(account) => account,
            None => caller,
        };
        self.registry.platform_of(address)
    }

    /// The wallet that `tg_id` is bound to.
    pub fn address_of(&self, tg_id: TelegramId) -> (found: Option<WalletId>)
        ensures
            found == self@.wallet_of(tg_id),
    {
        self.registry.wallet_of(tg_id)
    }

    /// The ledger balance of the wallet that `tg_id` is bound to: zero where it
    /// is bound to none.
    pub fn balance_of(&self, tg_id: TelegramId) -> (held: Balance)
        ensures
            held == self@.balance_of(tg_id),
    {
        match self.registry.wallet_of(tg_id) {
            Some(address) => self.ledger.balance_of(address),
            None => 0,
        }
    }

    /// Binds `caller` to `tg_id` and adds `deposit`, the value that came with
    /// the call, to the caller's ledger balance.
    ///
    /// Refused with `AlreadyBounded` where `tg_id` belongs to another wallet,
    /// and with `Overflow` where the balance could not hold the deposit. A
    /// platform identity that the caller held before is free afterwards.
    pub fn bind(
        &mut self,
        caller: WalletId,
        deposit: Balance,
        tg_id: TelegramId,
    ) -> (r: Result<(), Error>)
        requires
            old(self).wf(),
        ensures
            final(self).wf(),
            final(self)@ == old(self)@.bind(caller, deposit, tg_id).0,
            r == old(self)@.bind(caller, deposit, tg_id).1,
    {
        if let Some(holder) = self.registry.wallet_of(tg_id) {
            if holder != caller {
                return Err(Error::AlreadyBounded);
            }
        }
        if self.ledger.balance_of(caller).checked_add(deposit).is_none() {
            return Err(Error::Overflow);
        }
        let _ = self.registry.bind(caller, tg_id);
        let _ = self.ledger.credit(caller, deposit);
        Ok(())
    }

    /// Unbinds `caller`. A balance above zero is owed back first: the answer is
    /// then the payment to make, and the binding stays until it is settled.
    ///
    /// Refused with `NotFound` where `caller` is not bound.
    pub fn unbind(&mut self, caller: WalletId) -> (r: Result<Step, Error>)
        requires
            old(self).wf(),
        ensures
            final(self).wf(),
            final(self)@ == old(self)@.unbind(caller).0,
            r == old(self)@.unbind(caller).1,
    {
        self.unbind_account(caller)
    }

    /// Unbinds `account` as `unbind` does, on the word of the owner.
    ///
    /// Refused with `NotAllowed` where `caller` is not the owner, then with
    /// `NotFound` where `account` is not bound.
    pub fn force_unbind(&mut self, caller: WalletId, account: WalletId) -> (r: Result<Step, Error>)
        requires
            old(self).wf(),
        ensures
            final(self).wf(),
            final(self)@ == old(self)@.force_unbind(caller, account).0,
            r == old(self)@.force_unbind(caller, account).1,
    {
        match self.ensure_owner(caller) {
            Err(e) => Err(e),
            Ok(()) => self.unbind_account(account),
        }
    }

    /// Asks for a tip of `amount` from the caller's ledger balance to the
    /// wallet bound to `tg_id`. The answer is the payment to make; the balance
    /// is charged when it is settled.
    ///
    /// Refused with `NotFound` where `caller` or `tg_id` is not bound, then
    /// with `InsufficientFunds` where the caller's ledger entry does not cover
    /// `amount`.
    pub fn tip(
        &self,
        caller: WalletId,
        tg_id: TelegramId,
        amount: Balance,
    ) -> (r: Result<Step, Error>)
        ensures
            r == self@.tip(caller, tg_id, amount),
    {
        if self.registry.platform_of(caller).is_none() {
            return Err(Error::NotFound);
        }
        match self.registry.wallet_of(tg_id) {
            Some(target) => self.tip_account(caller, target, amount),
            None => Err(Error::NotFound),
        }
    }

    /// Asks, on the word of the owner, for a tip of `amount` from the wallet
    /// bound to `from` to the wallet bound to `to`.
    ///
    /// Refused with `NotAllowed` where `caller` is not the owner, then with
    /// `NotFound` where `from` or `to` is not bound, then with
    /// `InsufficientFunds` where the ledger entry of the paying wallet does not
    /// cover `amount`.
    pub fn tip_from(
        &self,
        caller: WalletId,
        from: TelegramId,
        to: TelegramId,
        amount: Balance,
    ) -> (r: Result<Step, Error>)
        ensures
            r == self@.tip_from(caller, from, to, amount),
    {
        match self.ensure_owner(caller) {
            Err(e) => Err(e),
            Ok(()) => {
                match self.registry.wallet_of(from) {
                    None => Err(Error::NotFound),
                    Some(source) => match self.registry.wallet_of(to) {
                        None => Err(Error::NotFound),
                        Some(target) => self.tip_account(source, target, amount),
                    },
                }
            },
        }
    }

    /// Applies `pending` once the environment has made the payment that came
    /// with it (`paid`), or drops it once the payment was refused.
    ///
    /// The change is checked against the state as it is now: refused with
    /// `NotFound` or `InsufficientFunds` as the operation itself would be, then
    /// with `BelowSubsistenceThreshold` where the payment was refused. In each
    /// of these cases nothing changes.
    pub fn settle(&mut self, pending: Pending, paid: bool) -> (r: Result<(), Error>)
        requires
            old(self).wf(),
        ensures
            final(self).wf(),
            final(self)@ == old(self)@.settle(pending, paid).0,
            r == old(self)@.settle(pending, paid).1,
    {
        match pending {
            Pending::Unbind { account } => {
                if self.registry.platform_of(account).is_none() {
                    return Err(Error::NotFound);
                }
                if !paid {
                    return Err(Error::BelowSubsistenceThreshold);
                }
                self.remove_account(account);
                Ok(())
            },
            Pending::Tip { from, amount } => {
                if !self.ledger.covers(from, amount) {
                    return Err(Error::InsufficientFunds);
                }
                if !paid {
                    return Err(Error::BelowSubsistenceThreshold);
                }
                let _ = self.ledger.debit(from, amount);
                Ok(())
            },
        }
    }

    /// Unbinds `account`, or says what is owed to it first.
    fn unbind_account(&mut self, account: WalletId) -> (r: Result<Step, Error>)
        requires
            old(self).wf(),
        ensures
            final(self).wf(),
            final(self)@ == old(self)@.unbind(account).0,
            r == old(self)@.unbind(account).1,
    {
        if self.registry.platform_of(account).is_none() {
            return Err(Error::NotFound);
        }
        let amount = self.ledger.balance_of(account);
        if amount > 0 {
            return Ok(
                Step::Pay {
                    payment: Payment { to: account, amount },
                    pending: Pending::Unbind { account },
                },
            );
        }
        self.remove_account(account);
        Ok(Step::Done)
    }

    /// Removes the binding of `account` and its ledger entry.
    fn remove_account(&mut self, account: WalletId)
        requires
            old(self).wf(),
            old(self)@.bindings.platform_of.contains_key(account),
        ensures
            final(self).wf(),
            final(self)@ == old(self)@.without(account),
    {
        let _ = self.registry.unbind(account);
        let _ = self.ledger.withdraw_all(account);
        assert forall|w: WalletId| #[trigger]
            self@.balances.contains_key(w) implies self@.bindings.platform_of.contains_key(w) by {
            assert(old(self)@.balances.contains_key(w));
        }
    }

    /// Says what a tip of `amount` from `caller` to `target` owes.
    fn tip_account(
        &self,
        caller: WalletId,
        target: WalletId,
        amount: Balance,
    ) -> (r: Result<Step, Error>)
        ensures
            r == self@.tip_between(caller, target, amount),
    {
        if self.ledger.covers(caller, amount) {
            Ok(
                Step::Pay {
                    payment: Payment { to: target, amount },
                    pending: Pending::Tip { from: caller, amount },
                },
            )
        } else {
            Err(Error::InsufficientFunds)
        }
    }

    /// Lets only the owner pass.
    fn ensure_owner(&self, caller: WalletId) -> (r: Result<(), Error>)
        ensures
            caller == self@.owner ==> r == Ok::<(), Error>(()),
            caller != self@.owner ==> r == Err::<(), Error>(Error::NotAllowed),
    {
        if caller == self.owner {
            Ok(())
        } else {
            Err(Error::NotAllowed)
        }
    }
}

} // verus!
