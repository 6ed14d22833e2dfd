//! Asking how far the verification of a user has come.

use vstd::prelude::*;

use crate::error::SerializationError;
use crate::header::HeaderMessage;
use crate::params::SilaParams;

verus! {

/// Whose verification is asked about.
#[derive(Clone)]
pub struct CheckKycMessageParams {
    pub sila_handle: String,
}

impl CheckKycMessageParams {
    /// The request that asks about this user's verification.
    pub fn into_message(self, sila_params: &SilaParams) -> (out: Result<
        HeaderMessage,
        SerializationError,
    >)
        ensures
            match out {
                Ok(message) => message.is_call_of(self.sila_handle@, sila_params.app_handle@),
                Err(e) => e == SerializationError::ClockBeforeEpoch,
            },
    {
        HeaderMessage::for_user(self.sila_handle, sila_params)
    }
}

} // verus!
