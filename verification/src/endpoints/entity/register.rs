//! Registering a new user.

use vstd::prelude::*;

use crate::address::{address_hex, format_h160};
use crate::endpoints::entity::{Address, Contact, CryptoEntry, Entity, Identity};
use crate::error::SerializationError;
use crate::header::{crypto_symbol, Header};
use crate::json::{json_object, member, string_member, ObjectWriter};
use crate::params::SilaParams;

verus! {

/// The request that registers a user.
pub struct RegisterMessage {
    pub header: Header,
    pub message: String,
    pub address: Address,
    pub identity: Identity,
    pub contact: Contact,
    pub crypto_entry: CryptoEntry,
    pub entity: Entity,
}

/// What is known of the user who registers.
#[derive(Clone)]
pub struct RegisterMessageParams {
    pub sila_handle: String,
    pub ethereum_address: [u8; 20],
    pub birthdate: String,
    pub first_name: String,
    pub last_name: String,
    pub street_address_1: String,
    pub city: String,
    pub state: String,
    pub postal_code: String,
    pub phone: String,
    pub email: String,
    pub ssn: String,
}

impl RegisterMessage {
    /// Whether the business fields of this request are those of `params`:
    /// an individual in the United States, known by a social security
    /// number, with one address, one contact and one blockchain address,
    /// each under the alias `default`.
    pub open spec fn carries(self, params: RegisterMessageParams) -> bool {
        &&& self.message@ == "entity_msg"@
        &&& self.entity.relationship.deep_view() == Some("user"@)
        &&& self.entity.entity_name@ == "default"@
        &&& self.entity.first_name@ == params.first_name@
        &&& self.entity.last_name@ == params.last_name@
        &&& self.entity.birthdate@ == params.birthdate@
        &&& self.address.added_epoch is None
        &&& self.address.modified_epoch is None
        &&& self.address.nickname is None
        &&& self.address.uuid is None
        &&& self.address.address_alias.deep_view() == Some("default"@)
        &&& self.address.street_address_1.deep_view() == Some(params.street_address_1@)
        &&& self.address.street_address_2 is None
        &&& self.address.city.deep_view() == Some(params.city@)
        &&& self.address.state.deep_view() == Some(params.state@)
        &&& self.address.postal_code.deep_view() == Some(params.postal_code@)
        &&& self.address.country.deep_view() == Some("US"@)
        &&& self.identity.identity_alias@ == "SSN"@
        &&& self.identity.identity_value@ == params.ssn@
        &&& self.contact.contact_alias@ == "default"@
        &&& self.contact.phone@ == params.phone@
        &&& self.contact.email@ == params.email@
        &&& self.crypto_entry.crypto_alias@ == "default"@
        &&& self.crypto_entry.crypto_status is None
        &&& self.crypto_entry.crypto_address@ == address_hex(params.ethereum_address@)
        &&& self.crypto_entry.crypto_code@ == crypto_symbol()
    }

    /// The registration of the user of `params`, on the header given.
    pub fn with_header(
        params: RegisterMessageParams,
        header: Header,
        sila_params: &SilaParams,
    ) -> (message: RegisterMessage)
        ensures
            message.carries(params),
            message.header.is_call_header_from(
                header,
                None,
                Some(params.sila_handle@),
                sila_params.app_handle@,
            ),
            header.is_generated() ==> message.header.is_call_header(
                None,
                Some(params.sila_handle@),
                sila_params.app_handle@,
            ),
    {
        let crypto_address = format_h160(&params.ethereum_address);
        RegisterMessage {
            header: header.for_call(
                None,
                Some(params.sila_handle),
                sila_params.app_handle.clone(),
            ),
            entity: Entity {
                relationship: Some("user".to_string()),
                entity_name: "default".to_string(),
                first_name: params.first_name,
                last_name: params.last_name,
                birthdate: params.birthdate,
            },
            address: Address {
                added_epoch: None,
                modified_epoch: None,
                nickname: None,
                uuid: None,
                address_alias: Some("default".to_string()),
                street_address_1: Some(params.street_address_1),
                street_address_2: None,
                city: Some(params.city),
                state: Some(params.state),
                postal_code: Some(params.postal_code),
                country: Some("US".to_string()),
            },
            identity: Identity { identity_alias: "SSN".to_string(), identity_value: params.ssn },
            contact: Contact {
                contact_alias: "default".to_string(),
                phone: params.phone,
                email: params.email,
            },
            crypto_entry: CryptoEntry {
                crypto_alias: "default".to_string(),
                crypto_status: None,
                crypto_address,
                crypto_code: "ETH".to_string(),
            },
            message: "entity_msg".to_string(),
        }
    }

    /// The registration of the user of `params`, as a new call.
    pub fn from(params: RegisterMessageParams, sila_params: &SilaParams) -> (out: Result<
        RegisterMessage,
        SerializationError,
    >)
        ensures
            match out {
                Ok(message) => message.carries(params) && message.header.is_call_header(
                    None,
                    Some(params.sila_handle@),
                    sila_params.app_handle@,
                ),
                Err(e) => e == SerializationError::ClockBeforeEpoch,
            },
    {
        match Header::generate() {
            Ok(header) => Ok(RegisterMessage::with_header(params, header, sila_params)),
            Err(e) => Err(e),
        }
    }

    /// The members in JSON: `header`, `message`, `address`, `identity`,
    /// `contact`, `crypto_entry`, `entity`.
    pub open spec fn json_members(self) -> Seq<Seq<char>> {
        member("header"@, self.header.json_text()) + string_member("message"@, self.message@)
            + member("address"@, self.address.json_text()) + member(
            "identity"@,
            self.identity.json_text(),
        ) + member("contact"@, self.contact.json_text()) + member(
            "crypto_entry"@,
            self.crypto_entry.json_text(),
        ) + member("entity"@, self.entity.json_text())
    }

    /// The JSON text of the request, which is its canonical form.
    pub open spec fn json_text(self) -> Seq<char> {
        json_object(self.json_members())
    }

    /// Writes the request as JSON.
    pub fn to_json(&self) -> (out: Result<String, SerializationError>)
        ensures
            match out {
                Ok(text) => text@ == self.json_text(),
                Err(_) => false,
            },
    {
        let header = self.header.to_json()?;
        let address = self.address.to_json()?;
        let identity = self.identity.to_json()?;
        let contact = self.contact.to_json()?;
        let crypto_entry = self.crypto_entry.to_json()?;
        let entity = self.entity.to_json()?;
        let mut writer = ObjectWriter::new();
        writer.member("header", header.as_str())?;
        writer.string("message", self.message.as_str())?;
        writer.member("address", address.as_str())?;
        writer.member("identity", identity.as_str())?;
        writer.member("contact", contact.as_str())?;
        writer.member("crypto_entry", crypto_entry.as_str())?;
        writer.member("entity", entity.as_str())?;
        assert(writer.members() =~= self.json_members());
        Ok(writer.finish())
    }
}

} // verus!
