//! The state as mathematics: two mirrored maps, a map of balances, and what
//! each operation makes of them. The contracts of the executable code are
//! written over these functions.

use vstd::prelude::*;
use crate::types::{Balance, Error, Payment, Pending, Step, TelegramId, WalletId};

verus! {

/// What a map says of `key`: the value under it, if any.
pub open spec fn lookup<K, V>(m: Map<K, V>, key: K) -> Option<V> {
    if m.contains_key(key) {
        Some(m[key])
    } else {
        None
    }
}

/// The bindings between wallets and platform identities, read in both
/// directions.
#[verifier::ext_equal]
pub struct Bindings {
    pub platform_of: Map<WalletId, TelegramId>,
    pub wallet_of: Map<TelegramId, WalletId>,
}

impl Bindings {
    /// The two maps are inverses of each other.
    pub open spec fn wf(self) -> bool {
        &&& forall|w: WalletId| #[trigger]
            self.platform_of.contains_key(w) ==> lookup(self.wallet_of, self.platform_of[w])
                == Some(w)
        &&& forall|p: TelegramId| #[trigger]
            self.wallet_of.contains_key(p) ==> lookup(self.platform_of, self.wallet_of[p])
                == Some(p)
    }

    /// No bindings at all.
    pub open spec fn empty() -> Bindings {
        Bindings { platform_of: Map::empty(), wallet_of: Map::empty() }
    }

    /// `platform` is bound to a wallet other than `wallet`.
    pub open spec fn taken_by_other(self, wallet: WalletId, platform: TelegramId) -> bool {
        self.wallet_of.contains_key(platform) && self.wallet_of[platform] != wallet
    }

    /// The bindings once `wallet` is bound to `platform`: the platform identity
    /// that `wallet` had before, if any, is free again.
    pub open spec fn bind(self, wallet: WalletId, platform: TelegramId) -> Bindings {
        let freed = if self.platform_of.contains_key(wallet) {
            self.wallet_of.remove(self.platform_of[wallet])
        } else {
            self.wallet_of
        };
        Bindings {
            platform_of: self.platform_of.insert(wallet, platform),
            wallet_of: freed.insert(platform, wallet),
        }
    }

    /// The bindings without the one of `wallet`, which must be bound.
    pub open spec fn unbind(self, wallet: WalletId) -> Bindings
        recommends
            self.platform_of.contains_key(wallet),
    {
        Bindings {
            platform_of: self.platform_of.remove(wallet),
            wallet_of: self.wallet_of.remove(self.platform_of[wallet]),
        }
    }
}

/// The balance that the ledger `balances` holds for `wallet`: zero where it
/// has no entry.
pub open spec fn balance(balances: Map<WalletId, Balance>, wallet: WalletId) -> Balance {
    if balances.contains_key(wallet) {
        balances[wallet]
    } else {
        0
    }
}

/// The ledger holds an entry for `wallet` of at least `amount`.
pub open spec fn covers(balances: Map<WalletId, Balance>, wallet: WalletId, amount: Balance) -> bool {
    balances.contains_key(wallet) && balances[wallet] >= amount
}

/// The ledger after `amount` was added to the balance of `wallet`; adding
/// nothing changes nothing.
pub open spec fn credited(
    balances: Map<WalletId, Balance>,
    wallet: WalletId,
    amount: Balance,
) -> Map<WalletId, Balance> {
    if amount == 0 {
        balances
    } else {
        balances.insert(wallet, (balance(balances, wallet) + amount) as Balance)
    }
}

/// The ledger after `amount` was taken from the balance of `wallet`, which
/// must cover it.
pub open spec fn debited(
    balances: Map<WalletId, Balance>,
    wallet: WalletId,
    amount: Balance,
) -> Map<WalletId, Balance>
    recommends
        covers(balances, wallet, amount),
{
    balances.insert(wallet, (balances[wallet] - amount) as Balance)
}

/// The whole state: the owner, the bindings and the ledger.
#[verifier::ext_equal]
pub struct State {
    pub owner: WalletId,
    pub bindings: Bindings,
    pub balances: Map<WalletId, Balance>,
}

impl State {
    /// The bindings are one to one, and only bound wallets have a ledger
    /// entry.
    pub open spec fn wf(self) -> bool {
        &&& self.bindings.wf()
        &&& forall|w: WalletId| #[trigger]
            self.balances.contains_key(w) ==> self.bindings.platform_of.contains_key(w)
    }

    /// The state at creation: no bindings and no balances.
    pub open spec fn initial(owner: WalletId) -> State {
        State { owner, bindings: Bindings::empty(), balances: Map::empty() }
    }

    /// The platform identity that `wallet` is bound to.
    pub open spec fn platform_of(self, wallet: WalletId) -> Option<TelegramId> {
        lookup(self.bindings.platform_of, wallet)
    }

    /// The wallet that `platform` is bound to.
    pub open spec fn wallet_of(self, platform: TelegramId) -> Option<WalletId> {
        lookup(self.bindings.wallet_of, platform)
    }

    /// The ledger balance of the wallet that `platform` is bound to: zero where
    /// it is bound to none.
    pub open spec fn balance_of(self, platform: TelegramId) -> Balance {
        match self.wallet_of(platform) {
            Some(wallet) => balance(self.balances, wallet),
            None => 0,
        }
    }

    /// The state with other bindings.
    pub open spec fn with_bindings(self, bindings: Bindings) -> State {
        State { owner: self.owner, bindings, balances: self.balances }
    }

    /// The state with another ledger.
    pub open spec fn with_balances(self, balances: Map<WalletId, Balance>) -> State {
        State { owner: self.owner, bindings: self.bindings, balances }
    }

    /// Binding `caller` to `platform` with `deposit` attached: the state
    /// afterwards and the answer.
    pub open spec fn bind(
        self,
        caller: WalletId,
        deposit: Balance,
        platform: TelegramId,
    ) -> (State, Result<(), Error>) {
        if self.bindings.taken_by_other(caller, platform) {
            (self, Err(Error::AlreadyBounded))
        } else if balance(self.balances, caller) + deposit > Balance::MAX {
            (self, Err(Error::Overflow))
        } else {
            (
                State {
                    owner: self.owner,
                    bindings: self.bindings.bind(caller, platform),
                    balances: credited(self.balances, caller, deposit),
                },
                Ok(()),
            )
        }
    }

    /// The state without the binding of `account` and without its ledger
    /// entry.
    pub open spec fn without(self, account: WalletId) -> State {
        State {
            owner: self.owner,
            bindings: self.bindings.unbind(account),
            balances: self.balances.remove(account),
        }
    }

    /// Unbinding `account`: the state afterwards and the answer. A balance
    /// above zero is first paid back, and the state stays as it is until that
    /// payment is settled.
    pub open spec fn unbind(self, account: WalletId) -> (State, Result<Step, Error>) {
        if !self.bindings.platform_of.contains_key(account) {
            (self, Err(Error::NotFound))
        } else if balance(self.balances, account) == 0 {
            (self.without(account), Ok(Step::Done))
        } else {
            (
                self,
                Ok(
                    Step::Pay {
                        payment: Payment {
                            to: account,
                            amount: balance(self.balances, account),
                        },
                        pending: Pending::Unbind { account },
                    },
                ),
            )
        }
    }

    /// Unbinding `account` on the word of `caller`, which only the owner may
    /// give.
    pub open spec fn force_unbind(
        self,
        caller: WalletId,
        account: WalletId,
    ) -> (State, Result<Step, Error>) {
        if caller != self.owner {
            (self, Err(Error::NotAllowed))
        } else {
            self.unbind(account)
        }
    }

    /// The answer to a tip of `amount` from the ledger balance of `from` to the
    /// wallet `to`.
    pub open spec fn tip_between(
        self,
        from: WalletId,
        to: WalletId,
        amount: Balance,
    ) -> Result<Step, Error> {
        if !covers(self.balances, from, amount) {
            Err(Error::InsufficientFunds)
        } else {
            Ok(
                Step::Pay {
                    payment: Payment { to, amount },
                    pending: Pending::Tip { from, amount },
                },
            )
        }
    }

    /// The answer to a tip of `amount` by `caller` to the wallet bound to
    /// `platform`.
    pub open spec fn tip(
        self,
        caller: WalletId,
        platform: TelegramId,
        amount: Balance,
    ) -> Result<Step, Error> {
        if self.platform_of(caller).is_none() || self.wallet_of(platform).is_none() {
            Err(Error::NotFound)
        } else {
            self.tip_between(caller, self.wallet_of(platform).unwrap(), amount)
        }
    }

    /// The answer to a tip of `amount` that `caller`, who must be the owner,
    /// makes for the wallet bound to `from` to the wallet bound to `to`.
    pub open spec fn tip_from(
        self,
        caller: WalletId,
        from: TelegramId,
        to: TelegramId,
        amount: Balance,
    ) -> Result<Step, Error> {
        if caller != self.owner {
            Err(Error::NotAllowed)
        } else if self.wallet_of(from).is_none() || self.wallet_of(to).is_none() {
            Err(Error::NotFound)
        } else {
            self.tip_between(self.wallet_of(from).unwrap(), self.wallet_of(to).unwrap(), amount)
        }
    }

    /// Settling `pending` after the environment has made its payment
    /// (`paid`) or refused it: the state afterwards and the answer.
    pub open spec fn settle(self, pending: Pending, paid: bool) -> (State, Result<(), Error>) {
        match pending {
            Pending::Unbind { account } => {
                if !self.bindings.platform_of.contains_key(account) {
                    (self, Err(Error::NotFound))
                } else if !paid {
                    (self, Err(Error::BelowSubsistenceThreshold))
                } else {
                    (self.without(account), Ok(()))
                }
            },
            Pending::Tip { from, amount } => {
                if !covers(self.balances, from, amount) {
                    (self, Err(Error::InsufficientFunds))
                } else if !paid {
                    (self, Err(Error::BelowSubsistenceThreshold))
                } else {
                    (self.with_balances(debited(self.balances, from, amount)), Ok(()))
                }
            },
        }
    }
}

} // verus!
