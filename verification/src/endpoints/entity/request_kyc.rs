//! Asking for a user to be verified.

use vstd::prelude::*;

use crate::error::SerializationError;
use crate::header::HeaderMessage;
use crate::params::SilaParams;

verus! {

/// Who is to be verified.
#[derive(Clone)]
pub struct RequestKycMessageParams {
    pub sila_handle: String,
}

impl RequestKycMessageParams {
    /// The request that asks for this user to be verified.
    pub fn into_message(self, sila_params: &SilaParams) -> (out: Result<
        HeaderMessage,
        SerializationError,
    >)
        ensures
            match out {
                Ok(message) => message.is_call_of(self.sila_handle@, sila_params.app_handle@),
                Err(e) => e == SerializationError::ClockBeforeEpoch,
            },
    {
        HeaderMessage::for_user(self.sila_handle, sila_params)
    }
}

} // verus!
