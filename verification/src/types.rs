//! The plain values that the operations take and return.

use vstd::prelude::*;

verus! {

/// The identity of a user on the messaging platform.
pub type TelegramId = u32;

/// An amount of value.
pub type Balance = u128;

/// The identity of a wallet: the 256 bits of an account identifier, held as
/// its upper and lower half.
#[derive(Debug, Clone, Copy, PartialEq, Eq, Structural)]
pub struct WalletId {
    pub hi: u128,
    pub lo: u128,
}

/// Why an operation was refused.
#[derive(Debug, Clone, Copy, PartialEq, Eq, Structural)]
pub enum Error {
    /// The platform identity is bound to another wallet.
    AlreadyBounded,
    /// The caller is not the owner.
    NotAllowed,
    /// No binding exists for the wallet or the platform identity.
    NotFound,
    /// The payment failed.
    TransferFailed,
    /// The ledger balance is lower than the amount asked for.
    InsufficientFunds,
    /// The environment refused the payment, because an account would have
    /// been left with less than it must keep.
    BelowSubsistenceThreshold,
    /// A ledger balance would have exceeded what a `Balance` can hold.
    Overflow,
}

/// A payment that the environment is asked to make.
#[derive(Debug, Clone, Copy, PartialEq, Eq, Structural)]
pub struct Payment {
    /// The wallet that receives the payment.
    pub to: WalletId,
    /// The amount to pay.
    pub amount: Balance,
}

/// A change to the state that waits for a payment to go through.
#[derive(Debug, Clone, Copy, PartialEq, Eq, Structural)]
pub enum Pending {
    /// Remove the binding of `account` together with its ledger balance.
    Unbind { account: WalletId },
    /// Take `amount` from the ledger balance of `from`.
    Tip { from: WalletId, amount: Balance },
}

/// What is left to do after an operation was accepted.
#[derive(Debug, Clone, Copy, PartialEq, Eq, Structural)]
pub enum Step {
    /// Nothing: the operation has taken effect.
    Done,
    /// The environment makes `payment` and reports the outcome to
    /// `Tipbot::settle` together with `pending`; nothing has changed yet.
    Pay { payment: Payment, pending: Pending },
}

} // verus!
