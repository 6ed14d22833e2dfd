//! Cancelling a transaction that has not settled yet.

use vstd::prelude::*;

use crate::error::SerializationError;
use crate::header::Header;
use crate::json::{json_object, member, string_member, ObjectWriter};
use crate::params::SilaParams;

verus! {

/// The request that cancels a transaction.
pub struct CancelTransactionMessage {
    pub header: Header,
    pub transaction_id: String,
}

/// Which transaction of which user is cancelled, and under which reference
/// where the caller brings one.
pub struct CancelTransactionMessageParams {
    pub sila_handle: String,
    pub ethereum_address: [u8; 20],
    pub transaction_id: String,
    pub reference: Option<String>,
}

impl Default for CancelTransactionMessageParams {
    /// No user, the zero address, no transaction and no reference.
    fn default() -> (params: CancelTransactionMessageParams)
        ensures
            params.sila_handle@ == Seq::<char>::empty(),
            params.ethereum_address@ == Seq::new(20, |i: int| 0u8),
            params.transaction_id@ == Seq::<char>::empty(),
            params.reference is None,
    {
        let params = CancelTransactionMessageParams {
            sila_handle: String::new(),
            ethereum_address: [0u8; 20],
            transaction_id: String::new(),
            reference: None,
        };
        assert(params.ethereum_address@ =~= Seq::new(20, |i: int| 0u8));
        params
    }
}

impl CancelTransactionMessage {
    /// Whether the business fields of this request are those of `params`.
    pub open spec fn carries(self, params: CancelTransactionMessageParams) -> bool {
        self.transaction_id@ == params.transaction_id@
    }

    /// The request of `params`, on the header given. A reference that the
    /// caller brings replaces the header's own.
    pub fn with_header(
        params: CancelTransactionMessageParams,
        header: Header,
        sila_params: &SilaParams,
    ) -> (message: CancelTransactionMessage)
        ensures
            message.carries(params),
            message.header.is_call_header_from(
                header,
                params.reference.deep_view(),
                Some(params.sila_handle@),
                sila_params.app_handle@,
            ),
            header.is_generated() ==> message.header.is_call_header(
                params.reference.deep_view(),
                Some(params.sila_handle@),
                sila_params.app_handle@,
            ),
    {
        CancelTransactionMessage {
            header: header.for_call(
                params.reference,
                Some(params.sila_handle),
                sila_params.app_handle.clone(),
            ),
            transaction_id: params.transaction_id,
        }
    }

    /// The request of `params`, as a new call.
    pub fn from(params: CancelTransactionMessageParams, sila_params: &SilaParams) -> (out:
        Result<CancelTransactionMessage, SerializationError>)
        ensures
            match out {
                Ok(message) => message.carries(params) && message.header.is_call_header(
                    params.reference.deep_view(),
                    Some(params.sila_handle@),
                    sila_params.app_handle@,
                ),
                Err(e) => e == SerializationError::ClockBeforeEpoch,
            },
    {
        match Header::generate() {
            Ok(header) => Ok(CancelTransactionMessage::with_header(params, header, sila_params)),
            Err(e) => Err(e),
        }
    }

    /// The members in JSON: `header`, `transaction_id`.
    pub open spec fn json_members(self) -> Seq<Seq<char>> {
        member("header"@, self.header.json_text()) + string_member(
            "transaction_id"@,
            self.transaction_id@,
        )
    }

    /// The JSON text of the request, which is its canonical form.
    pub open spec fn json_text(self) -> Seq<char> {
        json_object(self.json_members())
    }

    /// Writes the request as JSON.
    pub fn to_json(&self) -> (out: Result<String, SerializationError>)
        ensures
            match out {
                Ok(text) => text@ == self.json_text(),
                Err(_) => false,
            },
    {
        let header = self.header.to_json()?;
        let mut writer = ObjectWriter::new();
        writer.member("header", header.as_str())?;
        writer.string("transaction_id", self.transaction_id.as_str())?;
        assert(writer.members() =~= self.json_members());
        Ok(writer.finish())
    }
}

} // verus!
