//! Bank accounts.

pub mod link_account;
