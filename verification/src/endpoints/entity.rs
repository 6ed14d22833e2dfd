//! Entities: the people and businesses that hold accounts.

pub mod check_kyc;
pub mod register;
pub mod request_kyc;
pub mod update;

use vstd::prelude::*;

use crate::error::SerializationError;
use crate::header::HeaderMessage;
use crate::json::{
    int_of, json_object, optional_integer_member, optional_string_member, string_member,
    ObjectWriter,
};
use crate::params::SilaParams;

verus! {

/// A postal address. In JSON a member is there exactly when it has a value.
pub struct Address {
    pub added_epoch: Option<i64>,
    pub modified_epoch: Option<i64>,
    pub nickname: Option<String>,
    pub uuid: Option<String>,
    pub address_alias: Option<String>,
    pub street_address_1: Option<String>,
    pub street_address_2: Option<String>,
    pub city: Option<String>,
    pub state: Option<String>,
    pub postal_code: Option<String>,
    pub country: Option<String>,
}

/// An identity document.
pub struct Identity {
    pub identity_alias: String,
    pub identity_value: String,
}

/// How to reach an entity.
pub struct Contact {
    pub phone: String,
    pub contact_alias: String,
    pub email: String,
}

/// A blockchain address of an entity.
pub struct CryptoEntry {
    pub crypto_alias: String,
    pub crypto_status: Option<String>,
    pub crypto_address: String,
    pub crypto_code: String,
}

/// Who an entity is.
pub struct Entity {
    pub birthdate: String,
    pub entity_name: String,
    pub first_name: String,
    pub last_name: String,
    pub relationship: Option<String>,
}

/// Whose entity record is asked for, with the key material of the asker.
pub struct RequestEntityParams {
    pub customer_sila_handle: String,
    pub customer_eth_address: [u8; 20],
    pub private_key: Option<[u8; 32]>,
}

/// Whose entity record is asked for.
pub struct RequestEntityMessageParams {
    pub sila_handle: String,
}

/// Which handle is asked about.
pub struct CheckHandleMessageParams {
    pub sila_handle: String,
}

impl Address {
    /// The members in JSON, in the order of the fields; a field without a
    /// value has no member.
    pub open spec fn json_members(self) -> Seq<Seq<char>> {
        optional_integer_member("added_epoch"@, int_of(self.added_epoch))
            + optional_integer_member("modified_epoch"@, int_of(self.modified_epoch))
            + optional_string_member("nickname"@, self.nickname.deep_view())
            + optional_string_member("uuid"@, self.uuid.deep_view()) + optional_string_member(
            "address_alias"@,
            self.address_alias.deep_view(),
        ) + optional_string_member("street_address_1"@, self.street_address_1.deep_view())
            + optional_string_member("street_address_2"@, self.street_address_2.deep_view())
            + optional_string_member("city"@, self.city.deep_view()) + optional_string_member(
            "state"@,
            self.state.deep_view(),
        ) + optional_string_member("postal_code"@, self.postal_code.deep_view())
            + optional_string_member("country"@, self.country.deep_view())
    }

    /// The address as JSON text.
    pub open spec fn json_text(self) -> Seq<char> {
        json_object(self.json_members())
    }

    /// Writes the address as JSON.
    pub fn to_json(&self) -> (out: Result<String, SerializationError>)
        ensures
            match out {
                Ok(text) => text@ == self.json_text(),
                Err(_) => false,
            },
    {
        let mut writer = ObjectWriter::new();
        writer.optional_integer("added_epoch", self.added_epoch)?;
        writer.optional_integer("modified_epoch", self.modified_epoch)?;
        writer.optional_string("nickname", &self.nickname)?;
        writer.optional_string("uuid", &self.uuid)?;
        writer.optional_string("address_alias", &self.address_alias)?;
        writer.optional_string("street_address_1", &self.street_address_1)?;
        writer.optional_string("street_address_2", &self.street_address_2)?;
        writer.optional_string("city", &self.city)?;
        writer.optional_string("state", &self.state)?;
        writer.optional_string("postal_code", &self.postal_code)?;
        writer.optional_string("country", &self.country)?;
        assert(writer.members() =~= self.json_members());
        Ok(writer.finish())
    }
}

impl Identity {
    /// The members in JSON: `identity_alias`, then `identity_value`.
    pub open spec fn json_members(self) -> Seq<Seq<char>> {
        string_member("identity_alias"@, self.identity_alias@) + string_member(
            "identity_value"@,
            self.identity_value@,
        )
    }

    /// The identity as JSON text.
    pub open spec fn json_text(self) -> Seq<char> {
        json_object(self.json_members())
    }

    /// Writes the identity as JSON.
    pub fn to_json(&self) -> (out: Result<String, SerializationError>)
        ensures
            match out {
                Ok(text) => text@ == self.json_text(),
                Err(_) => false,
            },
    {
        let mut writer = ObjectWriter::new();
        writer.string("identity_alias", self.identity_alias.as_str())?;
        writer.string("identity_value", self.identity_value.as_str())?;
        assert(writer.members() =~= self.json_members());
        Ok(writer.finish())
    }
}

impl Contact {
    /// The members in JSON: `phone`, `contact_alias`, `email`.
    pub open spec fn json_members(self) -> Seq<Seq<char>> {
        string_member("phone"@, self.phone@) + string_member(
            "contact_alias"@,
            self.contact_alias@,
        ) + string_member("email"@, self.email@)
    }

    /// The contact as JSON text.
    pub open spec fn json_text(self) -> Seq<char> {
        json_object(self.json_members())
    }

    /// Writes the contact as JSON.
    pub fn to_json(&self) -> (out: Result<String, SerializationError>)
        ensures
            match out {
                Ok(text) => text@ == self.json_text(),
                Err(_) => false,
            },
    {
        let mut writer = ObjectWriter::new();
        writer.string("phone", self.phone.as_str())?;
        writer.string("contact_alias", self.contact_alias.as_str())?;
        writer.string("email", self.email.as_str())?;
        assert(writer.members() =~= self.json_members());
        Ok(writer.finish())
    }
}

impl CryptoEntry {
    /// The members in JSON: `crypto_alias`, `crypto_status` (`null` where
    /// there is none), `crypto_address`, `crypto_code`.
    pub open spec fn json_members(self) -> Seq<Seq<char>> {
        string_member("crypto_alias"@, self.crypto_alias@) + crate::json::nullable_string_member(
            "crypto_status"@,
            self.crypto_status.deep_view(),
        ) + string_member("crypto_address"@, self.crypto_address@) + string_member(
            "crypto_code"@,
            self.crypto_code@,
        )
    }

    /// The entry as JSON text.
    pub open spec fn json_text(self) -> Seq<char> {
        json_object(self.json_members())
    }

    /// Writes the entry as JSON.
    pub fn to_json(&self) -> (out: Result<String, SerializationError>)
        ensures
            match out {
                Ok(text) => text@ == self.json_text(),
                Err(_) => false,
            },
    {
        let mut writer = ObjectWriter::new();
        writer.string("crypto_alias", self.crypto_alias.as_str())?;
        writer.nullable_string("crypto_status", &self.crypto_status)?;
        writer.string("crypto_address", self.crypto_address.as_str())?;
        writer.string("crypto_code", self.crypto_code.as_str())?;
        assert(writer.members() =~= self.json_members());
        Ok(writer.finish())
    }
}

impl Entity {
    /// The members in JSON: `birthdate`, `entity_name`, `first_name`,
    /// `last_name`, and `relationship` where there is one.
    pub open spec fn json_members(self) -> Seq<Seq<char>> {
        string_member("birthdate"@, self.birthdate@) + string_member(
            "entity_name"@,
            self.entity_name@,
        ) + string_member("first_name"@, self.first_name@) + string_member(
            "last_name"@,
            self.last_name@,
        ) + optional_string_member("relationship"@, self.relationship.deep_view())
    }

    /// The entity as JSON text.
    pub open spec fn json_text(self) -> Seq<char> {
        json_object(self.json_members())
    }

    /// Writes the entity as JSON.
    pub fn to_json(&self) -> (out: Result<String, SerializationError>)
        ensures
            match out {
                Ok(text) => text@ == self.json_text(),
                Err(_) => false,
            },
    {
        let mut writer = ObjectWriter::new();
        writer.string("birthdate", self.birthdate.as_str())?;
        writer.string("entity_name", self.entity_name.as_str())?;
        writer.string("first_name", self.first_name.as_str())?;
        writer.string("last_name", self.last_name.as_str())?;
        writer.optional_string("relationship", &self.relationship)?;
        assert(writer.members() =~= self.json_members());
        Ok(writer.finish())
    }
}

/// Whether `text` is the canonical message of a bare header request made
/// for the user `sila_handle` by the application `app_handle`.
pub open spec fn is_user_call_text(text: Seq<char>, sila_handle: Seq<char>, app_handle: Seq<char>) -> bool {
    exists|message: HeaderMessage|
        message.is_call_of(sila_handle, app_handle) && text == #[trigger] message.json_text()
}

/// The canonical message that asks for an entity's record.
pub fn get_entity_message(params: &RequestEntityMessageParams, sila_params: &SilaParams) -> (out:
    Result<String, SerializationError>)
    ensures
        match out {
            Ok(text) => is_user_call_text(text@, params.sila_handle@, sila_params.app_handle@),
            Err(e) => e == SerializationError::ClockBeforeEpoch,
        },
{
    let message = HeaderMessage::for_user(params.sila_handle.clone(), sila_params)?;
    message.to_json()
}

/// The canonical message that asks whether a handle is free.
pub fn check_handle_message(params: &CheckHandleMessageParams, sila_params: &SilaParams) -> (out:
    Result<String, SerializationError>)
    ensures
        match out {
            Ok(text) => is_user_call_text(text@, params.sila_handle@, sila_params.app_handle@),
            Err(e) => e == SerializationError::ClockBeforeEpoch,
        },
{
    let message = HeaderMessage::for_user(params.sila_handle.clone(), sila_params)?;
    message.to_json()
}

} // verus!
