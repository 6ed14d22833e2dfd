//! Asking for the balance of a wallet.

use vstd::prelude::*;

use crate::error::SerializationError;
use crate::json::{json_object, string_member, ObjectWriter};

verus! {

/// Whose balance is asked for.
pub struct RequestSilaBalanceParams {
    pub blockchain_address: String,
}

impl RequestSilaBalanceParams {
    /// The one member in JSON: `blockchain_address`.
    pub open spec fn json_members(self) -> Seq<Seq<char>> {
        string_member("blockchain_address"@, self.blockchain_address@)
    }

    /// The JSON text of the request.
    pub open spec fn json_text(self) -> Seq<char> {
        json_object(self.json_members())
    }

    /// Writes the request as JSON.
    pub fn to_json(&self) -> (out: Result<String, SerializationError>)
        ensures
            match out {
                Ok(text) => text@ == self.json_text(),
                Err(_) => false,
            },
    {
        let mut writer = ObjectWriter::new();
        writer.string("blockchain_address", self.blockchain_address.as_str())?;
        assert(writer.members() =~= self.json_members());
        Ok(writer.finish())
    }
}

} // verus!
