//! Wallets.

pub mod get_sila_balance;
