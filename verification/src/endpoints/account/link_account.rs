//! Linking a bank account.

use vstd::prelude::*;
use vstd::string::StringExecFns;

use crate::error::SerializationError;
use crate::header::Header;
use crate::json::{json_object, member, string_member, ObjectWriter};
use crate::params::SilaParams;

verus! {

/// Which bank account of which user is linked.
#[derive(Clone)]
pub struct LinkMessageParams {
    pub sila_handle: String,
    pub sila_bank_identifier: String,
    pub sila_bank_token: String,
    pub selected_account_id: String,
    pub account_name: Option<String>,
}

/// The request that links a bank account.
pub struct LinkMessage {
    pub header: Header,
    pub plaid_token: String,
    pub account_name: String,
    pub selected_account_id: String,
}

impl LinkMessageParams {
    /// These parameters in one line, for a log.
    pub open spec fn text(self) -> Seq<char> {
        "LinkParams ( sila_handle: "@ + self.sila_handle@ + ", bank_identifier: "@
            + self.sila_bank_identifier@ + ", bank_token: "@ + self.sila_bank_token@
            + ", selected_account_id: "@ + self.selected_account_id@
    }

    /// These parameters in one line, for a log.
    pub fn to_string(&self) -> (text: String)
        ensures
            text@ == self.text(),
    {
        let mut text = String::from_str("LinkParams ( sila_handle: ");
        text.append(self.sila_handle.as_str());
        text.append(", bank_identifier: ");
        text.append(self.sila_bank_identifier.as_str());
        text.append(", bank_token: ");
        text.append(self.sila_bank_token.as_str());
        text.append(", selected_account_id: ");
        text.append(self.selected_account_id.as_str());
        text
    }
}

impl LinkMessage {
    /// Whether the business fields of this request are those of `params`.
    /// An account without a name is called `default`.
    pub open spec fn carries(self, params: LinkMessageParams) -> bool {
        &&& self.plaid_token@ == params.sila_bank_token@
        &&& self.selected_account_id@ == params.selected_account_id@
        &&& self.account_name@ == match params.account_name {
            Some(name) => name@,
            None => "default"@,
        }
    }

    /// The request of `params`, on the header given.
    pub fn with_header(params: LinkMessageParams, header: Header, sila_params: &SilaParams) -> (
        message: LinkMessage
    )
        ensures
            message.carries(params),
            message.header.is_call_header_from(
                header,
                None,
                Some(params.sila_handle@),
                sila_params.app_handle@,
            ),
            header.is_generated() ==> message.header.is_call_header(
                None,
                Some(params.sila_handle@),
                sila_params.app_handle@,
            ),
    {
        let account_name = match params.account_name {
            Some(name) => name,
            None => "default".to_string(),
        };
        LinkMessage {
            header: header.for_call(
                None,
                Some(params.sila_handle),
                sila_params.app_handle.clone(),
            ),
            plaid_token: params.sila_bank_token,
            account_name,
            selected_account_id: params.selected_account_id,
        }
    }

    /// The request of `params`, as a new call.
    pub fn from(params: LinkMessageParams, sila_params: &SilaParams) -> (out: Result<
        LinkMessage,
        SerializationError,
    >)
        ensures
            match out {
                Ok(message) => message.carries(params) && message.header.is_call_header(
                    None,
                    Some(params.sila_handle@),
                    sila_params.app_handle@,
                ),
                Err(e) => e == SerializationError::ClockBeforeEpoch,
            },
    {
        match Header::generate() {
            Ok(header) => Ok(LinkMessage::with_header(params, header, sila_params)),
            Err(e) => Err(e),
        }
    }

    /// The members in JSON: `header`, `plaid_token`, `account_name`,
    /// `selected_account_id`.
    pub open spec fn json_members(self) -> Seq<Seq<char>> {
        member("header"@, self.header.json_text()) + string_member(
            "plaid_token"@,
            self.plaid_token@,
        ) + string_member("account_name"@, self.account_name@) + string_member(
            "selected_account_id"@,
            self.selected_account_id@,
        )
    }

    /// The JSON text of the request, which is its canonical form.
    pub open spec fn json_text(self) -> Seq<char> {
        json_object(self.json_members())
    }

    /// Writes the request as JSON.
    pub fn to_json(&self) -> (out: Result<String, SerializationError>)
        ensures
            match out {
                Ok(text) => text@ == self.json_text(),
                Err(_) => false,
            },
    {
        let header = self.header.to_json()?;
        let mut writer = ObjectWriter::new();
        writer.member("header", header.as_str())?;
        writer.string("plaid_token", self.plaid_token.as_str())?;
        writer.string("account_name", self.account_name.as_str())?;
        writer.string("selected_account_id", self.selected_account_id.as_str())?;
        assert(writer.members() =~= self.json_members());
        Ok(writer.finish())
    }
}

} // verus!
