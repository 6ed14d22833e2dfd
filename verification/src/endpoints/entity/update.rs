//! Changing what the gateway knows of an entity.

pub mod address;
pub mod email;
pub mod identity;
pub mod phone;
