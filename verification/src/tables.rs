//! The three tables of the state, each kept in a `Table` of words: how a
//! wallet, a platform identity and a balance are written as words, and what
//! each table holds when its words are read back.

use vstd::prelude::*;
use crate::model::lookup;
use crate::storage::{content, Table, Words};
use crate::types::{Balance, TelegramId, WalletId};

verus! {

/// The words that stand for a wallet: its two halves.
pub open spec fn wallet_words(wallet: WalletId) -> Words {
    (wallet.hi, wallet.lo)
}

/// The wallet that words stand for.
pub open spec fn words_wallet(words: Words) -> WalletId {
    WalletId { hi: words.0, lo: words.1 }
}

/// The words that stand for a platform identity: the identity in the second
/// word.
pub open spec fn platform_words(platform: TelegramId) -> Words {
    (0, platform as u128)
}

/// The platform identity that words stand for: the low 32 bits of the second
/// word.
pub open spec fn words_platform(words: Words) -> TelegramId {
    words.1 as u32
}

/// The words that stand for a balance: the balance in the second word.
pub open spec fn balance_words(balance: Balance) -> Words {
    (0, balance)
}

/// The balance that words stand for.
pub open spec fn words_balance(words: Words) -> Balance {
    words.1
}

fn to_wallet_words(wallet: WalletId) -> (words: Words)
    ensures
        words == wallet_words(wallet),
{
    (wallet.hi, wallet.lo)
}

fn from_wallet_words(words: Words) -> (wallet: WalletId)
    ensures
        wallet == words_wallet(words),
{
    WalletId { hi: words.0, lo: words.1 }
}

fn to_platform_words(platform: TelegramId) -> (words: Words)
    ensures
        words == platform_words(platform),
{
    (0, platform as u128)
}

fn from_platform_words(words: Words) -> (platform: TelegramId)
    ensures
        platform == words_platform(words),
{
    #[verifier::truncate]
    (words.1 as u32)
}

fn to_balance_words(balance: Balance) -> (words: Words)
    ensures
        words == balance_words(balance),
{
    (0, balance)
}

fn from_balance_words(words: Words) -> (balance: Balance)
    ensures
        balance == words_balance(words),
{
    words.1
}

/// The table from each bound wallet to its platform identity.
pub struct PlatformByWallet {
    table: Table,
}

impl View for PlatformByWallet {
    type V = Map<WalletId, TelegramId>;

    closed spec fn view(&self) -> Map<WalletId, TelegramId> {
        Map::new(
            |wallet: WalletId| content(self.table).contains_key(wallet_words(wallet)),
            |wallet: WalletId| words_platform(content(self.table)[wallet_words(wallet)]),
        )
    }
}

impl PlatformByWallet {
    /// A table that holds nothing.
    pub fn new() -> (table: PlatformByWallet)
        ensures
            table@ == (Map::<WalletId, TelegramId>::empty()),
    {
        let table = PlatformByWallet { table: Table::new() };
        assert(table@ =~= Map::<WalletId, TelegramId>::empty());
        table
    }

    /// The platform identity under `wallet`.
    pub fn get(&self, wallet: WalletId) -> (found: Option<TelegramId>)
        ensures
            found == lookup(self@, wallet),
    {
        match self.table.get(to_wallet_words(wallet)) {
            Some(words) => Some(from_platform_words(words)),
            None => None,
        }
    }

    /// Puts `platform` under `wallet` and returns what was there before.
    pub fn insert(&mut self, wallet: WalletId, platform: TelegramId) -> (prior: Option<TelegramId>)
        ensures
            final(self)@ == old(self)@.insert(wallet, platform),
            prior == lookup(old(self)@, wallet),
    {
        let prior = self.table.insert(to_wallet_words(wallet), to_platform_words(platform));
        assert(self@ =~= old(self)@.insert(wallet, platform));
        match prior {
            Some(words) => Some(from_platform_words(words)),
            None => None,
        }
    }

    /// Removes what is under `wallet` and returns it.
    pub fn take(&mut self, wallet: WalletId) -> (prior: Option<TelegramId>)
        ensures
            final(self)@ == old(self)@.remove(wallet),
            prior == lookup(old(self)@, wallet),
    {
        let prior = self.table.take(to_wallet_words(wallet));
        assert(self@ =~= old(self)@.remove(wallet));
        match prior {
            Some(words) => Some(from_platform_words(words)),
            None => None,
        }
    }
}

/// The table from each bound platform identity to its wallet.
pub struct WalletByPlatform {
    table: Table,
}

impl View for WalletByPlatform {
    type V = Map<TelegramId, WalletId>;

    closed spec fn view(&self) -> Map<TelegramId, WalletId> {
        Map::new(
            |platform: TelegramId| content(self.table).contains_key(platform_words(platform)),
            |platform: TelegramId| words_wallet(content(self.table)[platform_words(platform)]),
        )
    }
}

impl WalletByPlatform {
    /// A table that holds nothing.
    pub fn new() -> (table: WalletByPlatform)
        ensures
            table@ == (Map::<TelegramId, WalletId>::empty()),
    {
        let table = WalletByPlatform { table: Table::new() };
        assert(table@ =~= Map::<TelegramId, WalletId>::empty());
        table
    }

    /// The wallet under `platform`.
    pub fn get(&self, platform: TelegramId) -> (found: Option<WalletId>)
        ensures
            found == lookup(self@, platform),
    {
        match self.table.get(to_platform_words(platform)) {
            Some(words) => Some(from_wallet_words(words)),
            None => None,
        }
    }

    /// Puts `wallet` under `platform` and returns what was there before.
    pub fn insert(&mut self, platform: TelegramId, wallet: WalletId) -> (prior: Option<WalletId>)
        ensures
            final(self)@ == old(self)@.insert(platform, wallet),
            prior == lookup(old(self)@, platform),
    {
        let prior = self.table.insert(to_platform_words(platform), to_wallet_words(wallet));
        assert(self@ =~= old(self)@.insert(platform, wallet));
        match prior {
            Some(words) => Some(from_wallet_words(words)),
            None => None,
        }
    }

    /// Removes what is under `platform` and returns it.
    pub fn take(&mut self, platform: TelegramId) -> (prior: Option<WalletId>)
        ensures
            final(self)@ == old(self)@.remove(platform),
            prior == lookup(old(self)@, platform),
    {
        let prior = self.table.take(to_platform_words(platform));
        assert(self@ =~= old(self)@.remove(platform));
        match prior {
            Some(words) => Some(from_wallet_words(words)),
            None => None,
        }
    }
}

/// The table from a wallet to the balance held for it.
pub struct BalanceByWallet {
    table: Table,
}

impl View for BalanceByWallet {
    type V = Map<WalletId, Balance>;

    closed spec fn view(&self) -> Map<WalletId, Balance> {
        Map::new(
            |wallet: WalletId| content(self.table).contains_key(wallet_words(wallet)),
            |wallet: WalletId| words_balance(content(self.table)[wallet_words(wallet)]),
        )
    }
}

impl BalanceByWallet {
    /// A table that holds nothing.
    pub fn new() -> (table: BalanceByWallet)
        ensures
            table@ == (Map::<WalletId, Balance>::empty()),
    {
        let table = BalanceByWallet { table: Table::new() };
        assert(table@ =~= Map::<WalletId, Balance>::empty());
        table
    }

    /// The balance under `wallet`.
    pub fn get(&self, wallet: WalletId) -> (found: Option<Balance>)
        ensures
            found == lookup(self@, wallet),
    {
        match self.table.get(to_wallet_words(wallet)) {
            Some(words) => Some(from_balance_words(words)),
            None => None,
        }
    }

    /// Puts `balance` under `wallet` and returns what was there before.
    pub fn insert(&mut self, wallet: WalletId, balance: Balance) -> (prior: Option<Balance>)
        ensures
            final(self)@ == old(self)@.insert(wallet, balance),
            prior == lookup(old(self)@, wallet),
    {
        let prior = self.table.insert(to_wallet_words(wallet), to_balance_words(balance));
        assert(self@ =~= old(self)@.insert(wallet, balance));
        match prior {
            Some(words) => Some(from_balance_words(words)),
            None => None,
        }
    }

    /// Removes what is under `wallet` and returns it.
    pub fn take(&mut self, wallet: WalletId) -> (prior: Option<Balance>)
        ensures
            final(self)@ == old(self)@.remove(wallet),
            prior == lookup(old(self)@, wallet),
    {
        let prior = self.table.take(to_wallet_words(wallet));
        assert(self@ =~= old(self)@.remove(wallet));
        match prior {
            Some(words) => Some(from_balance_words(words)),
            None => None,
        }
    }
}

} // verus!
