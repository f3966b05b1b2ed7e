//! The operations on plain values, without an environment.

use tipbot::tables::{BalanceByWallet, PlatformByWallet, WalletByPlatform};
use tipbot::{Balance, Error, Ledger, Payment, Pending, Registry, Step, Tipbot, WalletId};

fn w(n: u128) -> WalletId {
    WalletId { hi: n << 64, lo: n }
}

#[test]
fn new_state_is_empty() {
    let bot = Tipbot::new(w(1));
    assert_eq!(bot.telegram_id_of(w(1), None), None);
    assert_eq!(bot.telegram_id_of(w(1), Some(w(2))), None);
    assert_eq!(bot.address_of(0), None);
    assert_eq!(bot.balance_of(0), 0);
}

#[test]
fn wallets_differ_by_either_half() {
    let mut bot = Tipbot::new(w(1));
    let a = WalletId { hi: 1, lo: 2 };
    let b = WalletId { hi: 2, lo: 1 };
    let c = WalletId { hi: 1, lo: 3 };
    assert_eq!(bot.bind(a, 10, 1), Ok(()));
    assert_eq!(bot.bind(b, 20, 2), Ok(()));
    assert_eq!(bot.bind(c, 30, 3), Ok(()));
    assert_eq!(bot.address_of(1), Some(a));
    assert_eq!(bot.address_of(2), Some(b));
    assert_eq!(bot.address_of(3), Some(c));
    assert_eq!(bot.balance_of(1), 10);
    assert_eq!(bot.balance_of(2), 20);
    assert_eq!(bot.balance_of(3), 30);
}

#[test]
fn bindings_mirror_each_other() {
    let mut bot = Tipbot::new(w(1));
    assert_eq!(bot.bind(w(2), 0, 42), Ok(()));
    assert_eq!(bot.bind(w(3), 0, 43), Ok(()));
    assert_eq!(bot.bind(w(2), 0, 44), Ok(()));
    for (wallet, platform) in [(w(2), 44), (w(3), 43)] {
        assert_eq!(bot.telegram_id_of(w(1), Some(wallet)), Some(platform));
        assert_eq!(bot.address_of(platform), Some(wallet));
    }
    assert_eq!(bot.address_of(42), None);
}

#[test]
fn rebinding_frees_the_old_platform() {
    let mut bot = Tipbot::new(w(1));
    assert_eq!(bot.bind(w(2), 5, 42), Ok(()));
    assert_eq!(bot.bind(w(2), 0, 4242), Ok(()));
    assert_eq!(bot.address_of(42), None);
    assert_eq!(bot.telegram_id_of(w(2), None), Some(4242));
    assert_eq!(bot.balance_of(4242), 5);
    // the freed identity can be taken by another wallet.
    assert_eq!(bot.bind(w(3), 0, 42), Ok(()));
    assert_eq!(bot.address_of(42), Some(w(3)));
}

#[test]
fn binding_the_same_pair_again_adds_the_deposit() {
    let mut bot = Tipbot::new(w(1));
    assert_eq!(bot.bind(w(2), 5, 42), Ok(()));
    assert_eq!(bot.bind(w(2), 6, 42), Ok(()));
    assert_eq!(bot.address_of(42), Some(w(2)));
    assert_eq!(bot.telegram_id_of(w(2), None), Some(42));
    assert_eq!(bot.balance_of(42), 11);
}

#[test]
fn deposits_add_up() {
    let mut bot = Tipbot::new(w(1));
    assert_eq!(bot.bind(w(2), 100, 42), Ok(()));
    assert_eq!(bot.bind(w(2), 200, 4242), Ok(()));
    assert_eq!(bot.balance_of(4242), 300);
    assert_eq!(bot.balance_of(42), 0);
}

#[test]
fn deposit_beyond_the_limit_is_refused() {
    let mut bot = Tipbot::new(w(1));
    assert_eq!(bot.bind(w(2), Balance::MAX, 42), Ok(()));
    assert_eq!(bot.bind(w(2), 1, 43), Err(Error::Overflow));
    // nothing has changed.
    assert_eq!(bot.telegram_id_of(w(2), None), Some(42));
    assert_eq!(bot.address_of(43), None);
    assert_eq!(bot.balance_of(42), Balance::MAX);
    assert_eq!(bot.bind(w(2), 0, 43), Ok(()));
    assert_eq!(bot.balance_of(43), Balance::MAX);
}

#[test]
fn taken_platform_comes_before_overflow() {
    let mut bot = Tipbot::new(w(1));
    assert_eq!(bot.bind(w(2), Balance::MAX, 42), Ok(()));
    assert_eq!(bot.bind(w(3), 0, 43), Ok(()));
    assert_eq!(bot.bind(w(2), 1, 43), Err(Error::AlreadyBounded));
}

#[test]
fn unbind_without_balance_is_done_at_once() {
    let mut bot = Tipbot::new(w(1));
    assert_eq!(bot.bind(w(2), 0, 42), Ok(()));
    assert_eq!(bot.unbind(w(2)), Ok(Step::Done));
    assert_eq!(bot.telegram_id_of(w(2), None), None);
    assert_eq!(bot.address_of(42), None);
    assert_eq!(bot.unbind(w(2)), Err(Error::NotFound));
}

#[test]
fn unbind_with_balance_waits_for_the_payment() {
    let mut bot = Tipbot::new(w(1));
    assert_eq!(bot.bind(w(2), 100, 42), Ok(()));
    let pending = Pending::Unbind { account: w(2) };
    assert_eq!(
        bot.unbind(w(2)),
        Ok(Step::Pay { payment: Payment { to: w(2), amount: 100 }, pending })
    );
    // nothing has changed yet.
    assert_eq!(bot.address_of(42), Some(w(2)));
    assert_eq!(bot.balance_of(42), 100);
    // a refused payment changes nothing either.
    assert_eq!(bot.settle(pending, false), Err(Error::BelowSubsistenceThreshold));
    assert_eq!(bot.address_of(42), Some(w(2)));
    assert_eq!(bot.balance_of(42), 100);
    // a payment that was made takes the binding and the balance away.
    assert_eq!(bot.settle(pending, true), Ok(()));
    assert_eq!(bot.address_of(42), None);
    assert_eq!(bot.telegram_id_of(w(2), None), None);
    assert_eq!(bot.balance_of(42), 0);
    // the balance does not come back with a new binding.
    assert_eq!(bot.bind(w(2), 0, 42), Ok(()));
    assert_eq!(bot.balance_of(42), 0);
    assert_eq!(bot.settle(Pending::Unbind { account: w(9) }, true), Err(Error::NotFound));
}

#[test]
fn unbind_after_tipping_everything_owes_nothing() {
    let mut bot = Tipbot::new(w(1));
    assert_eq!(bot.bind(w(2), 100, 42), Ok(()));
    assert_eq!(bot.bind(w(3), 0, 43), Ok(()));
    let pending = Pending::Tip { from: w(2), amount: 100 };
    assert_eq!(
        bot.tip(w(2), 43, 100),
        Ok(Step::Pay { payment: Payment { to: w(3), amount: 100 }, pending })
    );
    assert_eq!(bot.settle(pending, true), Ok(()));
    assert_eq!(bot.balance_of(42), 0);
    assert_eq!(bot.unbind(w(2)), Ok(Step::Done));
    assert_eq!(bot.address_of(42), None);
}

#[test]
fn bind_then_unbind_leaves_nothing_behind() {
    let mut bot = Tipbot::new(w(1));
    assert_eq!(bot.bind(w(5), 9, 7), Ok(()));
    assert_eq!(bot.bind(w(2), 0, 42), Ok(()));
    assert_eq!(bot.unbind(w(2)), Ok(Step::Done));
    assert_eq!(bot.telegram_id_of(w(2), None), None);
    assert_eq!(bot.address_of(42), None);
    assert_eq!(bot.balance_of(42), 0);
    assert_eq!(bot.tip(w(2), 7, 0), Err(Error::NotFound));
    // the rest is as it was.
    assert_eq!(bot.address_of(7), Some(w(5)));
    assert_eq!(bot.balance_of(7), 9);
}

#[test]
fn tip_charges_the_caller_only() {
    let mut bot = Tipbot::new(w(1));
    assert_eq!(bot.bind(w(2), 100, 42), Ok(()));
    assert_eq!(bot.bind(w(3), 0, 142), Ok(()));
    let pending = Pending::Tip { from: w(2), amount: 50 };
    assert_eq!(
        bot.tip(w(2), 142, 50),
        Ok(Step::Pay { payment: Payment { to: w(3), amount: 50 }, pending })
    );
    assert_eq!(bot.balance_of(42), 100);
    assert_eq!(bot.settle(pending, true), Ok(()));
    assert_eq!(bot.balance_of(42), 50);
    assert_eq!(bot.balance_of(142), 0);
    assert_eq!(bot.address_of(42), Some(w(2)));
    assert_eq!(bot.address_of(142), Some(w(3)));
}

#[test]
fn tip_of_the_whole_balance_and_more() {
    let mut bot = Tipbot::new(w(1));
    assert_eq!(bot.bind(w(2), 100, 42), Ok(()));
    assert_eq!(bot.bind(w(3), 0, 142), Ok(()));
    assert_eq!(bot.tip(w(2), 142, 101), Err(Error::InsufficientFunds));
    assert!(bot.tip(w(2), 142, 100).is_ok());
    assert_eq!(bot.settle(Pending::Tip { from: w(2), amount: 101 }, true), Err(Error::InsufficientFunds));
    assert_eq!(bot.balance_of(42), 100);
}

#[test]
fn tip_of_nothing_needs_a_ledger_entry() {
    let mut bot = Tipbot::new(w(1));
    assert_eq!(bot.bind(w(2), 1, 42), Ok(()));
    assert_eq!(bot.bind(w(3), 0, 142), Ok(()));
    assert_eq!(bot.tip(w(3), 42, 0), Err(Error::InsufficientFunds));
    assert_eq!(
        bot.tip(w(2), 142, 0),
        Ok(Step::Pay {
            payment: Payment { to: w(3), amount: 0 },
            pending: Pending::Tip { from: w(2), amount: 0 },
        })
    );
}

#[test]
fn tip_needs_both_sides_bound() {
    let mut bot = Tipbot::new(w(1));
    assert_eq!(bot.bind(w(2), 100, 42), Ok(()));
    assert_eq!(bot.tip(w(2), 142, 50), Err(Error::NotFound));
    assert_eq!(bot.tip(w(3), 42, 50), Err(Error::NotFound));
    // not being bound comes before not having the funds.
    assert_eq!(bot.tip(w(2), 142, 500), Err(Error::NotFound));
    assert_eq!(bot.balance_of(42), 100);
}

#[test]
fn refused_tip_payment_keeps_the_balance() {
    let mut bot = Tipbot::new(w(1));
    assert_eq!(bot.bind(w(2), 100, 42), Ok(()));
    assert_eq!(bot.bind(w(3), 0, 142), Ok(()));
    let pending = Pending::Tip { from: w(2), amount: 50 };
    assert_eq!(bot.settle(pending, false), Err(Error::BelowSubsistenceThreshold));
    assert_eq!(bot.balance_of(42), 100);
}

#[test]
fn owner_only() {
    let mut bot = Tipbot::new(w(1));
    assert_eq!(bot.bind(w(2), 100, 42), Ok(()));
    assert_eq!(bot.bind(w(3), 0, 142), Ok(()));
    assert_eq!(bot.force_unbind(w(2), w(2)), Err(Error::NotAllowed));
    assert_eq!(bot.force_unbind(w(3), w(9)), Err(Error::NotAllowed));
    assert_eq!(bot.tip_from(w(2), 42, 142, 10), Err(Error::NotAllowed));
    assert_eq!(bot.tip_from(w(2), 42, 999, 10), Err(Error::NotAllowed));
    assert_eq!(bot.address_of(42), Some(w(2)));
    assert_eq!(bot.balance_of(42), 100);
    // the owner may.
    assert_eq!(bot.force_unbind(w(1), w(9)), Err(Error::NotFound));
    assert_eq!(bot.force_unbind(w(1), w(3)), Ok(Step::Done));
    assert_eq!(bot.address_of(142), None);
    assert_eq!(
        bot.force_unbind(w(1), w(2)),
        Ok(Step::Pay {
            payment: Payment { to: w(2), amount: 100 },
            pending: Pending::Unbind { account: w(2) },
        })
    );
}

#[test]
fn tip_from_names_both_wallets() {
    let mut bot = Tipbot::new(w(1));
    assert_eq!(bot.bind(w(2), 100, 42), Ok(()));
    assert_eq!(bot.bind(w(3), 0, 142), Ok(()));
    assert_eq!(
        bot.tip_from(w(1), 42, 142, 30),
        Ok(Step::Pay {
            payment: Payment { to: w(3), amount: 30 },
            pending: Pending::Tip { from: w(2), amount: 30 },
        })
    );
    assert_eq!(bot.tip_from(w(1), 142, 42, 30), Err(Error::InsufficientFunds));
    assert_eq!(bot.tip_from(w(1), 1, 142, 30), Err(Error::NotFound));
    assert_eq!(bot.tip_from(w(1), 42, 1, 30), Err(Error::NotFound));
}

#[test]
fn registry_binds_and_unbinds() {
    let mut registry = Registry::new();
    assert_eq!(registry.platform_of(w(2)), None);
    assert_eq!(registry.wallet_of(42), None);
    assert_eq!(registry.unbind(w(2)), Err(Error::NotFound));
    assert_eq!(registry.bind(w(2), 42), Ok(()));
    assert_eq!(registry.platform_of(w(2)), Some(42));
    assert_eq!(registry.wallet_of(42), Some(w(2)));
    assert_eq!(registry.bind(w(3), 42), Err(Error::AlreadyBounded));
    assert_eq!(registry.platform_of(w(3)), None);
    assert_eq!(registry.wallet_of(42), Some(w(2)));
    assert_eq!(registry.bind(w(2), 42), Ok(()));
    assert_eq!(registry.bind(w(2), 43), Ok(()));
    assert_eq!(registry.wallet_of(42), None);
    assert_eq!(registry.wallet_of(43), Some(w(2)));
    assert_eq!(registry.platform_of(w(2)), Some(43));
    assert_eq!(registry.unbind(w(2)), Ok(43));
    assert_eq!(registry.platform_of(w(2)), None);
    assert_eq!(registry.wallet_of(43), None);
}

#[test]
fn ledger_credits_and_debits() {
    let mut ledger = Ledger::new();
    assert_eq!(ledger.balance_of(w(2)), 0);
    assert!(!ledger.covers(w(2), 0));
    assert_eq!(ledger.debit(w(2), 0), Err(Error::InsufficientFunds));
    assert_eq!(ledger.credit(w(2), 0), Ok(()));
    assert!(!ledger.covers(w(2), 0));
    assert_eq!(ledger.credit(w(2), 70), Ok(()));
    assert_eq!(ledger.credit(w(2), 30), Ok(()));
    assert_eq!(ledger.balance_of(w(2)), 100);
    assert_eq!(ledger.balance_of(w(3)), 0);
    assert!(ledger.covers(w(2), 100));
    assert!(!ledger.covers(w(2), 101));
    assert_eq!(ledger.debit(w(2), 101), Err(Error::InsufficientFunds));
    assert_eq!(ledger.balance_of(w(2)), 100);
    assert_eq!(ledger.debit(w(2), 40), Ok(()));
    assert_eq!(ledger.balance_of(w(2)), 60);
    assert_eq!(ledger.debit(w(2), 60), Ok(()));
    assert_eq!(ledger.balance_of(w(2)), 0);
    assert!(ledger.covers(w(2), 0));
    assert_eq!(ledger.credit(w(2), 5), Ok(()));
    assert_eq!(ledger.withdraw_all(w(2)), 5);
    assert_eq!(ledger.withdraw_all(w(2)), 0);
    assert_eq!(ledger.balance_of(w(2)), 0);
    assert!(!ledger.covers(w(2), 0));
}

#[test]
fn ledger_refuses_overflow() {
    let mut ledger = Ledger::new();
    assert_eq!(ledger.credit(w(2), Balance::MAX - 1), Ok(()));
    assert_eq!(ledger.credit(w(2), 2), Err(Error::Overflow));
    assert_eq!(ledger.balance_of(w(2)), Balance::MAX - 1);
    assert_eq!(ledger.credit(w(2), 1), Ok(()));
    assert_eq!(ledger.balance_of(w(2)), Balance::MAX);
    assert_eq!(ledger.credit(w(3), Balance::MAX), Ok(()));
}

#[test]
fn platform_identities_at_the_limits() {
    let mut bot = Tipbot::new(w(1));
    assert_eq!(bot.bind(w(2), 1, 0), Ok(()));
    assert_eq!(bot.bind(w(3), 2, u32::MAX), Ok(()));
    assert_eq!(bot.bind(WalletId { hi: 0, lo: 0 }, 3, 1), Ok(()));
    assert_eq!(bot.bind(WalletId { hi: u128::MAX, lo: u128::MAX }, 4, u32::MAX - 1), Ok(()));
    assert_eq!(bot.address_of(0), Some(w(2)));
    assert_eq!(bot.address_of(u32::MAX), Some(w(3)));
    assert_eq!(bot.address_of(1), Some(WalletId { hi: 0, lo: 0 }));
    assert_eq!(bot.address_of(u32::MAX - 1), Some(WalletId { hi: u128::MAX, lo: u128::MAX }));
    assert_eq!(bot.telegram_id_of(w(3), None), Some(u32::MAX));
    assert_eq!(bot.telegram_id_of(w(2), None), Some(0));
    assert_eq!(bot.balance_of(0), 1);
    assert_eq!(bot.balance_of(u32::MAX), 2);
    assert_eq!(bot.balance_of(1), 3);
    assert_eq!(bot.balance_of(u32::MAX - 1), 4);
}

#[test]
fn tables_hold_what_was_put() {
    let mut platforms = PlatformByWallet::new();
    assert_eq!(platforms.get(w(2)), None);
    assert_eq!(platforms.insert(w(2), 42), None);
    assert_eq!(platforms.insert(w(2), u32::MAX), Some(42));
    assert_eq!(platforms.get(w(2)), Some(u32::MAX));
    assert_eq!(platforms.get(w(3)), None);
    assert_eq!(platforms.take(w(3)), None);
    assert_eq!(platforms.take(w(2)), Some(u32::MAX));
    assert_eq!(platforms.get(w(2)), None);

    let mut wallets = WalletByPlatform::new();
    assert_eq!(wallets.insert(7, w(2)), None);
    assert_eq!(wallets.insert(8, w(3)), None);
    assert_eq!(wallets.insert(7, w(4)), Some(w(2)));
    assert_eq!(wallets.get(7), Some(w(4)));
    assert_eq!(wallets.get(8), Some(w(3)));
    assert_eq!(wallets.take(7), Some(w(4)));
    assert_eq!(wallets.take(7), None);
    assert_eq!(wallets.get(8), Some(w(3)));

    let mut balances = BalanceByWallet::new();
    assert_eq!(balances.insert(w(2), u128::MAX), None);
    assert_eq!(balances.insert(w(3), 0), None);
    assert_eq!(balances.get(w(2)), Some(u128::MAX));
    assert_eq!(balances.get(w(3)), Some(0));
    assert_eq!(balances.insert(w(2), 5), Some(u128::MAX));
    assert_eq!(balances.take(w(2)), Some(5));
    assert_eq!(balances.get(w(2)), None);
    assert_eq!(balances.get(w(3)), Some(0));
}
