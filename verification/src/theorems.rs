//! What holds of the operations, proved over the model that their contracts
//! are written in.

use vstd::prelude::*;
use crate::model::{balance, State};
use crate::types::{Balance, Error, Payment, Pending, Step, TelegramId, WalletId};

verus! {

/// A fresh state is well formed.
pub proof fn initial_state_is_well_formed(owner: WalletId)
    ensures
        State::initial(owner).wf(),
{
}

/// Binding keeps a well-formed state well formed, whether it is accepted or
/// refused.
pub proof fn bind_keeps_well_formed(s: State, caller: WalletId, deposit: Balance, platform: TelegramId)
    requires
        s.wf(),
    ensures
        s.bind(caller, deposit, platform).0.wf(),
{
}

/// Unbinding, by the wallet itself or by the owner, keeps a well-formed state
/// well formed.
pub proof fn unbind_keeps_well_formed(s: State, caller: WalletId, account: WalletId)
    requires
        s.wf(),
    ensures
        s.unbind(account).0.wf(),
        s.force_unbind(caller, account).0.wf(),
{
}

/// Settling a pending change keeps a well-formed state well formed, whatever
/// the change and whatever became of the payment.
pub proof fn settle_keeps_well_formed(s: State, pending: Pending, paid: bool)
    requires
        s.wf(),
    ensures
        s.settle(pending, paid).0.wf(),
{
}

/// In a well-formed state a wallet is bound to a platform identity exactly
/// when that platform identity is bound to the wallet.
pub proof fn bindings_are_mirrored(s: State, wallet: WalletId, platform: TelegramId)
    requires
        s.wf(),
    ensures
        s.platform_of(wallet) == Some(platform) <==> s.wallet_of(platform) == Some(wallet),
{
}

/// In a well-formed state no platform identity belongs to two wallets, and no
/// wallet to two platform identities.
pub proof fn bindings_are_one_to_one(
    s: State,
    wallet: WalletId,
    other_wallet: WalletId,
    platform: TelegramId,
    other_platform: TelegramId,
)
    requires
        s.wf(),
    ensures
        s.platform_of(wallet).is_some() && s.platform_of(wallet) == s.platform_of(other_wallet)
            ==> wallet == other_wallet,
        s.wallet_of(platform).is_some() && s.wallet_of(platform) == s.wallet_of(other_platform)
            ==> platform == other_platform,
{
}

/// A wallet that held `before` and binds itself to another platform identity
/// `after`, which no other wallet holds, is accepted unless its balance cannot
/// hold the deposit. Then `before` is free, and the wallet and `after` are
/// bound to each other.
pub proof fn rebinding_frees_the_previous_platform(
    s: State,
    wallet: WalletId,
    deposit: Balance,
    before: TelegramId,
    after: TelegramId,
)
    requires
        s.wf(),
        s.platform_of(wallet) == Some(before),
        after != before,
        !s.bindings.taken_by_other(wallet, after),
    ensures
        s.bind(wallet, deposit, after).1.is_ok() <==> balance(s.balances, wallet) + deposit
            <= Balance::MAX,
        s.bind(wallet, deposit, after).1.is_ok() ==> {
            let t = s.bind(wallet, deposit, after).0;
            &&& t.wallet_of(before).is_none()
            &&& t.platform_of(wallet) == Some(after)
            &&& t.wallet_of(after) == Some(wallet)
        },
{
}

/// Two accepted bindings of one wallet, with one deposit each, leave the
/// platform identity that it holds at the end with the balance that the
/// wallet had, plus the first deposit, plus the second.
pub proof fn deposits_add_up(
    s: State,
    wallet: WalletId,
    first_deposit: Balance,
    first: TelegramId,
    second_deposit: Balance,
    second: TelegramId,
)
    requires
        s.wf(),
        s.bind(wallet, first_deposit, first).1.is_ok(),
        s.bind(wallet, first_deposit, first).0.bind(wallet, second_deposit, second).1.is_ok(),
    ensures
        s.bind(wallet, first_deposit, first).0.bind(wallet, second_deposit, second).0.balance_of(
            second,
        ) == balance(s.balances, wallet) + first_deposit + second_deposit,
{
}

/// A bound wallet with a balance above zero is answered with the payment of
/// that balance to itself, and nothing changes yet. Once the payment is
/// settled as made, the wallet is unbound, the platform identity it held is
/// bound to nobody and has a balance of zero, and no entry is left in the
/// ledger.
pub proof fn unbinding_pays_out_and_clears(s: State, wallet: WalletId, platform: TelegramId)
    requires
        s.wf(),
        s.platform_of(wallet) == Some(platform),
        balance(s.balances, wallet) > 0,
    ensures
        s.unbind(wallet).0 == s,
        s.unbind(wallet).1 == Ok::<Step, Error>(
            Step::Pay {
                payment: Payment { to: wallet, amount: balance(s.balances, wallet) },
                pending: Pending::Unbind { account: wallet },
            },
        ),
        s.settle(Pending::Unbind { account: wallet }, true).1 == Ok::<(), Error>(()),
        ({
            let t = s.settle(Pending::Unbind { account: wallet }, true).0;
            &&& t.platform_of(wallet).is_none()
            &&& t.wallet_of(platform).is_none()
            &&& t.balance_of(platform) == 0
            &&& !t.balances.contains_key(wallet)
        }),
{
}

/// A payment that the environment refused leaves the state as it was, and
/// the answer says so, unless the pending change is refused for a reason of
/// its own.
pub proof fn refused_payment_changes_nothing(s: State, pending: Pending)
    ensures
        s.settle(pending, false).0 == s,
        s.settle(pending, false).1.is_err(),
        s.settle(pending, true).1.is_ok() ==> s.settle(pending, false).1 == Err::<(), Error>(
            Error::BelowSubsistenceThreshold,
        ),
{
}

/// No operation that is refused changes the state.
pub proof fn refused_operations_change_nothing(
    s: State,
    caller: WalletId,
    account: WalletId,
    deposit: Balance,
    platform: TelegramId,
    pending: Pending,
    paid: bool,
)
    ensures
        s.bind(caller, deposit, platform).1.is_err() ==> s.bind(caller, deposit, platform).0 == s,
        s.unbind(account).1.is_err() ==> s.unbind(account).0 == s,
        s.force_unbind(caller, account).1.is_err() ==> s.force_unbind(caller, account).0 == s,
        s.settle(pending, paid).1.is_err() ==> s.settle(pending, paid).0 == s,
{
}

/// A tip that the ledger entry of the caller covers is answered with the
/// payment of the amount to the wallet of the platform identity that is
/// tipped. Once the payment is settled as made, the caller's balance is lower
/// by the amount, every other balance is as it was, and so are the bindings:
/// the ledger does not credit what the environment has paid.
pub proof fn tip_charges_only_the_caller(
    s: State,
    caller: WalletId,
    platform: TelegramId,
    amount: Balance,
    other: WalletId,
)
    requires
        s.wf(),
        s.platform_of(caller).is_some(),
        s.wallet_of(platform).is_some(),
        amount <= balance(s.balances, caller),
        s.balances.contains_key(caller),
        other != caller,
    ensures
        s.tip(caller, platform, amount) == Ok::<Step, Error>(
            Step::Pay {
                payment: Payment { to: s.wallet_of(platform).unwrap(), amount },
                pending: Pending::Tip { from: caller, amount },
            },
        ),
        s.settle(Pending::Tip { from: caller, amount }, true).1 == Ok::<(), Error>(()),
        ({
            let t = s.settle(Pending::Tip { from: caller, amount }, true).0;
            &&& balance(t.balances, caller) == balance(s.balances, caller) - amount
            &&& balance(t.balances, other) == balance(s.balances, other)
            &&& t.bindings == s.bindings
            &&& t.owner == s.owner
        }),
{
}

/// Between two bound parties, a tip of more than the caller's ledger balance
/// is refused for want of funds.
pub proof fn tip_beyond_the_balance_is_refused(
    s: State,
    caller: WalletId,
    platform: TelegramId,
    amount: Balance,
)
    requires
        s.platform_of(caller).is_some(),
        s.wallet_of(platform).is_some(),
        amount > balance(s.balances, caller),
    ensures
        s.tip(caller, platform, amount) == Err::<Step, Error>(Error::InsufficientFunds),
        s.settle(Pending::Tip { from: caller, amount }, true) == (
            s,
            Err::<(), Error>(Error::InsufficientFunds),
        ),
{
}

/// A tip to a platform identity that no wallet is bound to is refused as not
/// found, whoever asks and whatever the amount.
pub proof fn tip_to_the_unbound_is_refused(
    s: State,
    caller: WalletId,
    from: TelegramId,
    platform: TelegramId,
    amount: Balance,
)
    requires
        s.wallet_of(platform).is_none(),
    ensures
        s.tip(caller, platform, amount) == Err::<Step, Error>(Error::NotFound),
        s.tip_from(s.owner, from, platform, amount) == Err::<Step, Error>(Error::NotFound),
{
}

/// What is reserved to the owner is refused to everybody else, and changes
/// nothing.
pub proof fn only_the_owner_may_force(
    s: State,
    caller: WalletId,
    account: WalletId,
    from: TelegramId,
    to: TelegramId,
    amount: Balance,
)
    requires
        caller != s.owner,
    ensures
        s.force_unbind(caller, account) == (s, Err::<Step, Error>(Error::NotAllowed)),
        s.tip_from(caller, from, to, amount) == Err::<Step, Error>(Error::NotAllowed),
{
}

/// A wallet that is not bound, binds itself without a deposit to a platform
/// identity that nobody holds, and unbinds at once, leaves the state exactly
/// as it found it.
pub proof fn bind_then_unbind_restores(s: State, wallet: WalletId, platform: TelegramId)
    requires
        s.wf(),
        s.platform_of(wallet).is_none(),
        s.wallet_of(platform).is_none(),
    ensures
        s.bind(wallet, 0, platform).1 == Ok::<(), Error>(()),
        s.bind(wallet, 0, platform).0.unbind(wallet) == (s, Ok::<Step, Error>(Step::Done)),
{
    let t = s.bind(wallet, 0, platform).0;
    assert(t.unbind(wallet).0 =~= s);
}

/// The change that comes with an accepted operation is accepted in turn when
/// it is settled, as paid, on the state that the operation left.
pub proof fn accepted_operations_settle(
    s: State,
    caller: WalletId,
    account: WalletId,
    from: TelegramId,
    to: TelegramId,
    amount: Balance,
    payment: Payment,
    pending: Pending,
)
    requires
        s.wf(),
        s.unbind(account).1 == Ok::<Step, Error>(Step::Pay { payment, pending })
            || s.force_unbind(caller, account).1 == Ok::<Step, Error>(Step::Pay { payment, pending })
            || s.tip(caller, to, amount) == Ok::<Step, Error>(Step::Pay { payment, pending })
            || s.tip_from(caller, from, to, amount) == Ok::<Step, Error>(
            Step::Pay { payment, pending },
        ),
    ensures
        s.settle(pending, true).1 == Ok::<(), Error>(()),
        s.settle(pending, false) == (s, Err::<(), Error>(Error::BelowSubsistenceThreshold)),
{
}

/// No operation answers that the payment failed for a reason of its own
/// making: that answer is kept for the environment.
pub proof fn transfer_failed_is_never_answered(
    s: State,
    caller: WalletId,
    account: WalletId,
    deposit: Balance,
    from: TelegramId,
    to: TelegramId,
    amount: Balance,
    pending: Pending,
    paid: bool,
)
    ensures
        s.bind(caller, deposit, to).1 != Err::<(), Error>(Error::TransferFailed),
        s.unbind(account).1 != Err::<Step, Error>(Error::TransferFailed),
        s.force_unbind(caller, account).1 != Err::<Step, Error>(Error::TransferFailed),
        s.tip(caller, to, amount) != Err::<Step, Error>(Error::TransferFailed),
        s.tip_from(caller, from, to, amount) != Err::<Step, Error>(Error::TransferFailed),
        s.settle(pending, paid).1 != Err::<(), Error>(Error::TransferFailed),
{
}

} // verus!
