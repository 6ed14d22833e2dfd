//! The request bodies of the gateway's endpoints.

pub mod account;
pub mod entity;
pub mod transaction;
pub mod wallet;
