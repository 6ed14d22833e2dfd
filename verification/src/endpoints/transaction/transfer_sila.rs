//! Transferring tokens from one user to another.

use vstd::prelude::*;

use crate::error::SerializationError;
use crate::header::Header;
use crate::json::{
    integer_member, json_object, member, optional_string_member, string_member, ObjectWriter,
};
use crate::params::{copy_text, SilaParams};

verus! {

/// The request that transfers tokens.
pub struct TransferSilaMessage {
    pub header: Header,
    pub amount: i32,
    pub message: String,
    pub destination_handle: String,
    pub descriptor: Option<String>,
    pub destination_address: Option<String>,
    pub destination_wallet: Option<String>,
    pub source_id: Option<String>,
    pub destination_id: Option<String>,
}

/// How much is transferred from whom to whom.
pub struct TransferSilaMessageParams {
    pub sila_handle: String,
    pub ethereum_address: [u8; 20],
    pub amount: i32,
    pub descriptor: Option<String>,
    pub destination_handle: String,
    pub destination_address: Option<String>,
    pub destination_wallet: Option<String>,
    pub destination_id: Option<String>,
    pub source_id: Option<String>,
}

impl Default for TransferSilaMessageParams {
    /// Nothing transferred from nobody to nobody.
    fn default() -> (params: TransferSilaMessageParams)
        ensures
            params.sila_handle@ == Seq::<char>::empty(),
            params.ethereum_address@ == Seq::new(20, |i: int| 0u8),
            params.amount == 0,
            params.descriptor is None,
            params.destination_handle@ == Seq::<char>::empty(),
            params.destination_address is None,
            params.destination_wallet is None,
            params.destination_id is None,
            params.source_id is None,
    {
        let params = TransferSilaMessageParams {
            sila_handle: String::new(),
            ethereum_address: [0u8; 20],
            amount: 0,
            descriptor: None,
            destination_handle: String::new(),
            destination_address: None,
            destination_wallet: None,
            destination_id: None,
            source_id: None,
        };
        assert(params.ethereum_address@ =~= Seq::new(20, |i: int| 0u8));
        params
    }
}

impl TransferSilaMessage {
    /// Whether the business fields of this request are those of `params`.
    pub open spec fn carries(self, params: TransferSilaMessageParams) -> bool {
        &&& self.message@ == "transfer_msg"@
        &&& self.amount == params.amount
        &&& self.destination_handle@ == params.destination_handle@
        &&& self.descriptor.deep_view() == params.descriptor.deep_view()
        &&& self.destination_address.deep_view() == params.destination_address.deep_view()
        &&& self.destination_wallet.deep_view() == params.destination_wallet.deep_view()
        &&& self.source_id.deep_view() == params.source_id.deep_view()
        &&& self.destination_id.deep_view() == params.destination_id.deep_view()
    }

    /// The request of `params`, on the header given.
    pub fn with_header(
        params: &TransferSilaMessageParams,
        header: Header,
        sila_params: &SilaParams,
    ) -> (message: TransferSilaMessage)
        ensures
            message.carries(*params),
            message.header.is_call_header_from(
                header,
                None,
                Some(params.sila_handle@),
                sila_params.app_handle@,
            ),
            header.is_generated() ==> message.header.is_call_header(
                None,
                Some(params.sila_handle@),
                sila_params.app_handle@,
            ),
    {
        TransferSilaMessage {
            header: header.for_call(
                None,
                Some(params.sila_handle.clone()),
                sila_params.app_handle.clone(),
            ),
            message: "transfer_msg".to_string(),
            amount: params.amount,
            descriptor: copy_text(&params.descriptor),
            destination_handle: params.destination_handle.clone(),
            destination_address: copy_text(&params.destination_address),
            destination_wallet: copy_text(&params.destination_wallet),
            destination_id: copy_text(&params.destination_id),
            source_id: copy_text(&params.source_id),
        }
    }

    /// The members in JSON: `header`, `amount`, `message`,
    /// `destination_handle`, and, each where it has a value, `descriptor`,
    /// `destination_address`, `destination_wallet`, `source_id`,
    /// `destination_id`.
    pub open spec fn json_members(self) -> Seq<Seq<char>> {
        member("header"@, self.header.json_text()) + integer_member(
            "amount"@,
            self.amount as int,
        ) + string_member("message"@, self.message@) + string_member(
            "destination_handle"@,
            self.destination_handle@,
        ) + optional_string_member("descriptor"@, self.descriptor.deep_view())
            + optional_string_member(
            "destination_address"@,
            self.destination_address.deep_view(),
        ) + optional_string_member("destination_wallet"@, self.destination_wallet.deep_view())
            + optional_string_member("source_id"@, self.source_id.deep_view())
            + optional_string_member("destination_id"@, self.destination_id.deep_view())
    }

    /// The JSON text of the request, which is its canonical form.
    pub open spec fn json_text(self) -> Seq<char> {
        json_object(self.json_members())
    }

    /// Writes the request as JSON.
    pub fn to_json(&self) -> (out: Result<String, SerializationError>)
        ensures
            match out {
                Ok(text) => text@ == self.json_text(),
                Err(_) => false,
            },
    {
        let header = self.header.to_json()?;
        let mut writer = ObjectWriter::new();
        writer.member("header", header.as_str())?;
        writer.integer("amount", self.amount as i64)?;
        writer.string("message", self.message.as_str())?;
        writer.string("destination_handle", self.destination_handle.as_str())?;
        writer.optional_string("descriptor", &self.descriptor)?;
        writer.optional_string("destination_address", &self.destination_address)?;
        writer.optional_string("destination_wallet", &self.destination_wallet)?;
        writer.optional_string("source_id", &self.source_id)?;
        writer.optional_string("destination_id", &self.destination_id)?;
        assert(writer.members() =~= self.json_members());
        Ok(writer.finish())
    }
}

/// Whether `text` is the canonical message of a call that transfers tokens
/// as `params` say, made by the application `app_handle`.
pub open spec fn is_transfer_text(
    text: Seq<char>,
    params: TransferSilaMessageParams,
    app_handle: Seq<char>,
) -> bool {
    exists|message: TransferSilaMessage|
        message.carries(params) && message.header.is_call_header(
            None,
            Some(params.sila_handle@),
            app_handle,
        ) && text == #[trigger] message.json_text()
}

/// The canonical message of a new call that transfers tokens.
pub fn transfer_sila_message(params: &TransferSilaMessageParams, sila_params: &SilaParams) -> (
    out: Result<String, SerializationError>
)
    ensures
        match out {
            Ok(text) => is_transfer_text(text@, *params, sila_params.app_handle@),
            Err(e) => e == SerializationError::ClockBeforeEpoch,
        },
{
    let header = Header::generate()?;
    let message = TransferSilaMessage::with_header(params, header, sila_params);
    message.to_json()
}

} // verus!
