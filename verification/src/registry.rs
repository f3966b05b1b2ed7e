//! The registry of bindings: two tables that mirror each other.

use vstd::prelude::*;
use crate::model::{lookup, Bindings};
use crate::tables::{PlatformByWallet, WalletByPlatform};
use crate::types::{Error, TelegramId, WalletId};

verus! {

/// The bindings between wallets and platform identities. Each wallet has at
/// most one platform identity and each platform identity at most one wallet.
pub struct Registry {
    address_tg: PlatformByWallet,
    tg_address: WalletByPlatform,
}

impl View for Registry {
    type V = Bindings;

    closed spec fn view(&self) -> Bindings {
        Bindings {
            platform_of: self.address_tg@,
            wallet_of: self.tg_address@,
        }
    }
}

impl Registry {
    /// The two tables are inverses of each other.
    pub open spec fn wf(&self) -> bool {
        self@.wf()
    }

    /// A registry without bindings.
    pub fn new() -> (registry: Registry)
        ensures
            registry.wf(),
            registry@ == Bindings::empty(),
    {
        let registry = Registry {
            address_tg: PlatformByWallet::new(),
            tg_address: WalletByPlatform::new(),
        };
        assert(registry@ =~= Bindings::empty());
        registry
    }

    /// The platform identity that `wallet` is bound to.
    pub fn platform_of(&self, wallet: WalletId) -> (found: Option<TelegramId>)
        ensures
            found == lookup(self@.platform_of, wallet),
    {
        self.address_tg.get(wallet)
    }

    /// The wallet that `platform` is bound to.
    pub fn wallet_of(&self, platform: TelegramId) -> (found: Option<WalletId>)
        ensures
            found == lookup(self@.wallet_of, platform),
    {
        self.tg_address.get(platform)
    }

    /// Binds `wallet` to `platform`. A platform identity that another wallet
    /// holds is not taken over: the call is refused and nothing changes.
    /// Otherwise the pair is recorded in both directions, and the platform
    /// identity that `wallet` had before is free again.
    pub fn bind(&mut self, wallet: WalletId, platform: TelegramId) -> (r: Result<(), Error>)
        requires
            old(self).wf(),
        ensures
            final(self).wf(),
            old(self)@.taken_by_other(wallet, platform) ==> r == Err::<(), Error>(
                Error::AlreadyBounded,
            ) && final(self)@ == old(self)@,
            !old(self)@.taken_by_other(wallet, platform) ==> r == Ok::<(), Error>(())
                && final(self)@ == old(self)@.bind(wallet, platform),
    {
        match self.tg_address.get(platform) {
            Some(holder) => {
                if holder != wallet {
                    return Err(Error::AlreadyBounded);
                }
                assert(self@ =~= old(self)@.bind(wallet, platform));
            },
            None => {
                let prior = self.address_tg.insert(wallet, platform);
                if let Some(freed) = prior {
                    let _ = self.tg_address.take(freed);
                }
                let _ = self.tg_address.insert(platform, wallet);
                assert(self@ =~= old(self)@.bind(wallet, platform));
            },
        }
        Ok(())
    }

    /// Removes the binding of `wallet` in both directions and returns the
    /// platform identity that it held. Where `wallet` is not bound the call is
    /// refused and nothing changes.
    pub fn unbind(&mut self, wallet: WalletId) -> (r: Result<TelegramId, Error>)
        requires
            old(self).wf(),
        ensures
            final(self).wf(),
            !old(self)@.platform_of.contains_key(wallet) ==> r == Err::<TelegramId, Error>(
                Error::NotFound,
            ) && final(self)@ == old(self)@,
            old(self)@.platform_of.contains_key(wallet) ==> r == Ok::<TelegramId, Error>(
                old(self)@.platform_of[wallet],
            ) && final(self)@ == old(self)@.unbind(wallet),
    {
        match self.address_tg.take(wallet) {
            None => {
                assert(self@ =~= old(self)@);
                Err(Error::NotFound)
            },
            Some(platform) => {
                let _ = self.tg_address.take(platform);
                assert(self@ =~= old(self)@.unbind(wallet));
                Ok(platform)
            },
        }
    }
}

} // verus!
