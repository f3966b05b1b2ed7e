//! A registry that binds wallets to platform identities one to one, a ledger
//! of balances held for the bound wallets, and the operations that move value
//! between them: binding with a deposit, unbinding with a refund, and tipping.
//!
//! Payments to wallets are made by the environment, not by this crate. An
//! operation that owes one returns it as a [`Step::Pay`] and leaves the state
//! untouched; [`Tipbot::settle`] applies the change once the environment has
//! said whether the payment went through.

pub mod ledger;
pub mod model;
pub mod registry;
pub mod storage;
pub mod tables;
pub mod theorems;
pub mod tipbot;
pub mod types;

pub use crate::ledger::Ledger;
pub use crate::registry::Registry;
pub use crate::tipbot::Tipbot;
pub use crate::types::{Balance, Error, Payment, Pending, Step, TelegramId, WalletId};
