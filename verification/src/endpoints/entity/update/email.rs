//! Changing an e-mail address.

use vstd::prelude::*;

use crate::error::SerializationError;
use crate::header::Header;
use crate::json::{json_object, member, string_member, ObjectWriter};
use crate::params::SilaParams;

verus! {

/// Which e-mail address of which user is changed, and to what.
#[derive(Clone)]
pub struct UpdateEmailMessageParams {
    pub sila_handle: String,
    pub ethereum_address: [u8; 20],
    pub uuid: String,
    pub email: String,
}

/// The request that changes an e-mail address.
pub struct UpdateEmailMessage {
    pub header: Header,
    pub uuid: String,
    pub email: String,
}

impl UpdateEmailMessage {
    /// Whether the business fields of this request are those of `params`.
    pub open spec fn carries(self, params: UpdateEmailMessageParams) -> bool {
        self.uuid@ == params.uuid@ && self.email@ == params.email@
    }

    /// The request of `params`, on the header given.
    pub fn with_header(
        params: UpdateEmailMessageParams,
        header: Header,
        sila_params: &SilaParams,
    ) -> (message: UpdateEmailMessage)
        ensures
            message.carries(params),
            message.header.is_call_header_from(
                header,
                None,
                Some(params.sila_handle@),
                sila_params.app_handle@,
            ),
            header.is_generated() ==> message.header.is_call_header(
                None,
                Some(params.sila_handle@),
                sila_params.app_handle@,
            ),
    {
        UpdateEmailMessage {
            header: header.for_call(
                None,
                Some(params.sila_handle),
                sila_params.app_handle.clone(),
            ),
            uuid: params.uuid,
            email: params.email,
        }
    }

    /// The request of `params`, as a new call.
    pub fn from(params: UpdateEmailMessageParams, sila_params: &SilaParams) -> (out: Result<
        UpdateEmailMessage,
        SerializationError,
    >)
        ensures
            match out {
                Ok(message) => message.carries(params) && message.header.is_call_header(
                    None,
                    Some(params.sila_handle@),
                    sila_params.app_handle@,
                ),
                Err(e) => e == SerializationError::ClockBeforeEpoch,
            },
    {
        match Header::generate() {
            Ok(header) => Ok(UpdateEmailMessage::with_header(params, header, sila_params)),
            Err(e) => Err(e),
        }
    }

    /// The members in JSON: `header`, `uuid`, `email`.
    pub open spec fn json_members(self) -> Seq<Seq<char>> {
        member("header"@, self.header.json_text()) + string_member("uuid"@, self.uuid@)
            + string_member("email"@, self.email@)
    }

    /// The JSON text of the request, which is its canonical form.
    pub open spec fn json_text(self) -> Seq<char> {
        json_object(self.json_members())
    }

    /// Writes the request as JSON.
    pub fn to_json(&self) -> (out: Result<String, SerializationError>)
        ensures
            match out {
                Ok(text) => text@ == self.json_text(),
                Err(_) => false,
            },
    {
        let header = self.header.to_json()?;
        let mut writer = ObjectWriter::new();
        writer.member("header", header.as_str())?;
        writer.string("uuid", self.uuid.as_str())?;
        writer.string("email", self.email.as_str())?;
        assert(writer.members() =~= self.json_members());
        Ok(writer.finish())
    }
}

} // verus!
