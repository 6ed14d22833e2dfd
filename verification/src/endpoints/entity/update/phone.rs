//! Changing a telephone number.

use vstd::prelude::*;

use crate::error::SerializationError;
use crate::header::Header;
use crate::json::{
    json_object, member, optional_bool_member, optional_string_member, string_member,
    ObjectWriter,
};
use crate::params::{copy_text, SilaParams};

verus! {

/// Which telephone number of which user is changed, and to what. The new
/// number travels in the field `email`.
pub struct UpdatePhoneMessageParams {
    pub sila_handle: String,
    pub ethereum_address: [u8; 20],
    pub uuid: String,
    pub email: Option<String>,
    pub sms_opt_in: Option<bool>,
}

/// The request that changes a telephone number.
pub struct UpdatePhoneMessage {
    pub header: Header,
    pub uuid: String,
    pub phone: Option<String>,
    pub sms_opt_in: Option<bool>,
}

impl UpdatePhoneMessage {
    /// Whether the business fields of this request are those of `params`.
    pub open spec fn carries(self, params: UpdatePhoneMessageParams) -> bool {
        &&& self.uuid@ == params.uuid@
        &&& self.phone.deep_view() == params.email.deep_view()
        &&& self.sms_opt_in == params.sms_opt_in
    }

    /// The request of `params`, on the header given.
    pub fn with_header(
        params: &UpdatePhoneMessageParams,
        header: Header,
        sila_params: &SilaParams,
    ) -> (message: UpdatePhoneMessage)
        ensures
            message.carries(*params),
            message.header.is_call_header_from(
                header,
                None,
                Some(params.sila_handle@),
                sila_params.app_handle@,
            ),
            header.is_generated() ==> message.header.is_call_header(
                None,
                Some(params.sila_handle@),
                sila_params.app_handle@,
            ),
    {
        UpdatePhoneMessage {
            header: header.for_call(
                None,
                Some(params.sila_handle.clone()),
                sila_params.app_handle.clone(),
            ),
            uuid: params.uuid.clone(),
            phone: copy_text(&params.email),
            sms_opt_in: params.sms_opt_in,
        }
    }

    /// The members in JSON: `header`, `uuid`, and `phone` and `sms_opt_in`
    /// where they have a value.
    pub open spec fn json_members(self) -> Seq<Seq<char>> {
        member("header"@, self.header.json_text()) + string_member("uuid"@, self.uuid@)
            + optional_string_member("phone"@, self.phone.deep_view()) + optional_bool_member(
            "sms_opt_in"@,
            self.sms_opt_in,
        )
    }

    /// The JSON text of the request, which is its canonical form.
    pub open spec fn json_text(self) -> Seq<char> {
        json_object(self.json_members())
    }

    /// Writes the request as JSON.
    pub fn to_json(&self) -> (out: Result<String, SerializationError>)
        ensures
            match out {
                Ok(text) => text@ == self.json_text(),
                Err(_) => false,
            },
    {
        let header = self.header.to_json()?;
        let mut writer = ObjectWriter::new();
        writer.member("header", header.as_str())?;
        writer.string("uuid", self.uuid.as_str())?;
        writer.optional_string("phone", &self.phone)?;
        writer.optional_boolean("sms_opt_in", self.sms_opt_in)?;
        assert(writer.members() =~= self.json_members());
        Ok(writer.finish())
    }
}

/// Whether `text` is the canonical message of a call that changes a
/// telephone number as `params` say, made by the application `app_handle`.
pub open spec fn is_update_phone_text(
    text: Seq<char>,
    params: UpdatePhoneMessageParams,
    app_handle: Seq<char>,
) -> bool {
    exists|message: UpdatePhoneMessage|
        message.carries(params) && message.header.is_call_header(
            None,
            Some(params.sila_handle@),
            app_handle,
        ) && text == #[trigger] message.json_text()
}

/// The canonical message of a new call that changes a telephone number.
pub fn update_phone_message(params: &UpdatePhoneMessageParams, sila_params: &SilaParams) -> (out:
    Result<String, SerializationError>)
    ensures
        match out {
            Ok(text) => is_update_phone_text(text@, *params, sila_params.app_handle@),
            Err(e) => e == SerializationError::ClockBeforeEpoch,
        },
{
    let header = Header::generate()?;
    let message = UpdatePhoneMessage::with_header(params, header, sila_params);
    message.to_json()
}

} // verus!
