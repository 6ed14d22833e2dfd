//! Moving funds, and looking at what was moved.

pub mod cancel_transaction;
pub mod get_transactions;
pub mod issue_sila;
pub mod redeem_sila;
pub mod transfer_sila;
