//! Changing a postal address.

use vstd::prelude::*;

use crate::error::SerializationError;
use crate::header::Header;
use crate::json::{json_object, member, optional_string_member, string_member, ObjectWriter};
use crate::params::{copy_text, SilaParams};

verus! {

/// The request that changes a postal address. A member is there exactly
/// when the field has a value.
pub struct UpdateAddressMessage {
    pub header: Header,
    pub uuid: String,
    pub address_alias: Option<String>,
    pub street_address_1: Option<String>,
    pub street_address_2: Option<String>,
    pub city: Option<String>,
    pub state: Option<String>,
    pub postal_code: Option<String>,
    pub country: Option<String>,
}

/// Which address of which user is changed, and which of its fields.
pub struct UpdateAddressMessageParams {
    pub sila_handle: String,
    pub ethereum_address: [u8; 20],
    pub uuid: String,
    pub address_alias: Option<String>,
    pub street_address_1: Option<String>,
    pub street_address_2: Option<String>,
    pub city: Option<String>,
    pub state: Option<String>,
    pub postal_code: Option<String>,
    pub country: Option<String>,
}

impl Default for UpdateAddressMessageParams {
    /// No user, the zero address, and nothing to change.
    fn default() -> (params: UpdateAddressMessageParams)
        ensures
            params.sila_handle@ == Seq::<char>::empty(),
            params.ethereum_address@ == Seq::new(20, |i: int| 0u8),
            params.uuid@ == Seq::<char>::empty(),
            params.address_alias is None,
            params.street_address_1 is None,
            params.street_address_2 is None,
            params.city is None,
            params.state is None,
            params.postal_code is None,
            params.country is None,
    {
        let params = UpdateAddressMessageParams {
            sila_handle: String::new(),
            ethereum_address: [0u8; 20],
            uuid: String::new(),
            address_alias: None,
            street_address_1: None,
            street_address_2: None,
            city: None,
            state: None,
            postal_code: None,
            country: None,
        };
        assert(params.ethereum_address@ =~= Seq::new(20, |i: int| 0u8));
        params
    }
}

impl UpdateAddressMessage {
    /// Whether the business fields of this request are those of `params`.
    pub open spec fn carries(self, params: UpdateAddressMessageParams) -> bool {
        &&& self.uuid@ == params.uuid@
        &&& self.address_alias.deep_view() == params.address_alias.deep_view()
        &&& self.street_address_1.deep_view() == params.street_address_1.deep_view()
        &&& self.street_address_2.deep_view() == params.street_address_2.deep_view()
        &&& self.city.deep_view() == params.city.deep_view()
        &&& self.state.deep_view() == params.state.deep_view()
        &&& self.postal_code.deep_view() == params.postal_code.deep_view()
        &&& self.country.deep_view() == params.country.deep_view()
    }

    /// The request of `params`, on the header given.
    pub fn with_header(
        params: &UpdateAddressMessageParams,
        header: Header,
        sila_params: &SilaParams,
    ) -> (message: UpdateAddressMessage)
        ensures
            message.carries(*params),
            message.header.is_call_header_from(
                header,
                None,
                Some(params.sila_handle@),
                sila_params.app_handle@,
            ),
            header.is_generated() ==> message.header.is_call_header(
                None,
                Some(params.sila_handle@),
                sila_params.app_handle@,
            ),
    {
        UpdateAddressMessage {
            header: header.for_call(
                None,
                Some(params.sila_handle.clone()),
                sila_params.app_handle.clone(),
            ),
            uuid: params.uuid.clone(),
            address_alias: copy_text(&params.address_alias),
            street_address_1: copy_text(&params.street_address_1),
            street_address_2: copy_text(&params.street_address_2),
            city: copy_text(&params.city),
            state: copy_text(&params.state),
            postal_code: copy_text(&params.postal_code),
            country: copy_text(&params.country),
        }
    }

    /// The members in JSON: `header`, `uuid`, and, each where it has a
    /// value, `address_alias`, `street_address_1`, `street_address_2`,
    /// `city`, `state`, `postal_code`, `country`.
    pub open spec fn json_members(self) -> Seq<Seq<char>> {
        member("header"@, self.header.json_text()) + string_member("uuid"@, self.uuid@)
            + optional_string_member("address_alias"@, self.address_alias.deep_view())
            + optional_string_member("street_address_1"@, self.street_address_1.deep_view())
            + optional_string_member("street_address_2"@, self.street_address_2.deep_view())
            + optional_string_member("city"@, self.city.deep_view()) + optional_string_member(
            "state"@,
            self.state.deep_view(),
        ) + optional_string_member("postal_code"@, self.postal_code.deep_view())
            + optional_string_member("country"@, self.country.deep_view())
    }

    /// The JSON text of the request, which is its canonical form.
    pub open spec fn json_text(self) -> Seq<char> {
        json_object(self.json_members())
    }

    /// Writes the request as JSON.
    pub fn to_json(&self) -> (out: Result<String, SerializationError>)
        ensures
            match out {
                Ok(text) => text@ == self.json_text(),
                Err(_) => false,
            },
    {
        let header = self.header.to_json()?;
        let mut writer = ObjectWriter::new();
        writer.member("header", header.as_str())?;
        writer.string("uuid", self.uuid.as_str())?;
        writer.optional_string("address_alias", &self.address_alias)?;
        writer.optional_string("street_address_1", &self.street_address_1)?;
        writer.optional_string("street_address_2", &self.street_address_2)?;
        writer.optional_string("city", &self.city)?;
        writer.optional_string("state", &self.state)?;
        writer.optional_string("postal_code", &self.postal_code)?;
        writer.optional_string("country", &self.country)?;
        assert(writer.members() =~= self.json_members());
        Ok(writer.finish())
    }
}

/// Whether `text` is the canonical message of a call that changes an
/// address as `params` say, made by the application `app_handle`.
pub open spec fn is_update_address_text(
    text: Seq<char>,
    params: UpdateAddressMessageParams,
    app_handle: Seq<char>,
) -> bool {
    exists|message: UpdateAddressMessage|
        message.carries(params) && message.header.is_call_header(
            None,
            Some(params.sila_handle@),
            app_handle,
        ) && text == #[trigger] message.json_text()
}

/// The canonical message of a new call that changes a postal address.
pub fn update_address_message(params: &UpdateAddressMessageParams, sila_params: &SilaParams) -> (
    out: Result<String, SerializationError>
)
    ensures
        match out {
            Ok(text) => is_update_address_text(text@, *params, sila_params.app_handle@),
            Err(e) => e == SerializationError::ClockBeforeEpoch,
        },
{
    let header = Header::generate()?;
    let message = UpdateAddressMessage::with_header(params, header, sila_params);
    message.to_json()
}

} // verus!
