//! Issuing tokens against a bank account.

use vstd::prelude::*;
use vstd::string::StringExecFns;

use crate::error::SerializationError;
use crate::header::Header;
use crate::json::{
    integer_member, json_object, member, optional_string_member, string_member, ObjectWriter,
};
use crate::params::{text_or_none, SilaParams, Status};

verus! {

/// How fast an issuance is processed.
#[derive(Clone, Copy, Debug, PartialEq, Eq, Structural)]
pub enum IssueProcessingType {
    StandardAch,
    SameDayAch,
    InstantAch,
    InstantSettlement,
}

/// The request that issues tokens.
pub struct IssueSilaMessage {
    pub header: Header,
    pub amount: i32,
    pub message: String,
    pub account_name: Option<String>,
    pub descriptor: Option<String>,
    pub business_uuid: Option<String>,
    pub processing_type: Option<IssueProcessingType>,
}

/// How much is issued to whom, and from which bank account.
#[derive(Clone)]
pub struct IssueSilaMessageParams {
    pub sila_handle: String,
    pub ethereum_address: [u8; 20],
    pub amount: i32,
    pub account_name: Option<String>,
    pub descriptor: Option<String>,
    pub business_uuid: Option<String>,
    pub processing_type: Option<IssueProcessingType>,
    pub reference: Option<String>,
}

/// What the gateway answers to an issuance.
pub struct IssueSilaResponse {
    pub message: String,
    pub reference: Option<String>,
    pub status: Status,
    pub success: bool,
    pub transaction_id: Option<String>,
    pub descriptor: Option<String>,
}

impl IssueProcessingType {
    /// The name of the processing type in a request body.
    pub open spec fn wire_text(self) -> Seq<char> {
        match self {
            IssueProcessingType::StandardAch => "STANDARD_ACH"@,
            IssueProcessingType::SameDayAch => "SAME_DAY_ACH"@,
            IssueProcessingType::InstantAch => "INSTANT_ACH"@,
            IssueProcessingType::InstantSettlement => "INSTANT_SETTLEMENT"@,
        }
    }

    /// The name of the processing type in a request body.
    pub fn wire_name(&self) -> (name: &'static str)
        ensures
            name@ == self.wire_text(),
    {
        match self {
            IssueProcessingType::StandardAch => "STANDARD_ACH",
            IssueProcessingType::SameDayAch => "SAME_DAY_ACH",
            IssueProcessingType::InstantAch => "INSTANT_ACH",
            IssueProcessingType::InstantSettlement => "INSTANT_SETTLEMENT",
        }
    }

    /// The processing type as it is shown to a reader.
    pub open spec fn text(self) -> Seq<char> {
        match self {
            IssueProcessingType::StandardAch => "STANDARD_ACH"@,
            IssueProcessingType::SameDayAch => "SAME_DAY_ACH"@,
            IssueProcessingType::InstantAch => "INSTANCE_ACH"@,
            IssueProcessingType::InstantSettlement => "INSTANT_SETTLEMENT"@,
        }
    }

    /// The processing type as it is shown to a reader.
    pub fn to_string(&self) -> (text: String)
        ensures
            text@ == self.text(),
    {
        match self {
            IssueProcessingType::StandardAch => "STANDARD_ACH".to_string(),
            IssueProcessingType::SameDayAch => "SAME_DAY_ACH".to_string(),
            IssueProcessingType::InstantAch => "INSTANCE_ACH".to_string(),
            IssueProcessingType::InstantSettlement => "INSTANT_SETTLEMENT".to_string(),
        }
    }
}

/// The wire name of a processing type that may be absent.
pub open spec fn issue_wire_text(value: Option<IssueProcessingType>) -> Option<Seq<char>> {
    match value {
        Some(kind) => Some(kind.wire_text()),
        None => None,
    }
}

/// The wire name of a processing type that may be absent.
pub fn issue_wire_name(value: Option<IssueProcessingType>) -> (name: Option<String>)
    ensures
        name.deep_view() == issue_wire_text(value),
{
    match value {
        Some(kind) => Some(kind.wire_name().to_string()),
        None => None,
    }
}

impl Default for IssueSilaMessageParams {
    /// Nothing issued to nobody, from the account `default`, by standard
    /// ACH.
    fn default() -> (params: IssueSilaMessageParams)
        ensures
            params.sila_handle@ == Seq::<char>::empty(),
            params.ethereum_address@ == Seq::new(20, |i: int| 0u8),
            params.amount == 0,
            params.account_name.deep_view() == Some("default"@),
            params.descriptor is None,
            params.business_uuid is None,
            params.processing_type == Some(IssueProcessingType::StandardAch),
            params.reference is None,
    {
        let params = IssueSilaMessageParams {
            sila_handle: String::new(),
            ethereum_address: [0u8; 20],
            amount: 0,
            account_name: Some("default".to_string()),
            descriptor: None,
            business_uuid: None,
            processing_type: Some(IssueProcessingType::StandardAch),
            reference: None,
        };
        assert(params.ethereum_address@ =~= Seq::new(20, |i: int| 0u8));
        params
    }
}

impl IssueSilaMessage {
    /// Whether the business fields of this request are those of `params`.
    pub open spec fn carries(self, params: IssueSilaMessageParams) -> bool {
        &&& self.message@ == "issue_msg"@
        &&& self.amount == params.amount
        &&& self.account_name.deep_view() == params.account_name.deep_view()
        &&& self.descriptor.deep_view() == params.descriptor.deep_view()
        &&& self.business_uuid.deep_view() == params.business_uuid.deep_view()
        &&& self.processing_type == params.processing_type
    }

    /// The request of `params`, on the header given. A reference that the
    /// caller brings replaces the header's own.
    pub fn with_header(params: IssueSilaMessageParams, header: Header, sila_params: &SilaParams) -> (
        message: IssueSilaMessage
    )
        ensures
            message.carries(params),
            message.header.is_call_header_from(
                header,
                params.reference.deep_view(),
                Some(params.sila_handle@),
                sila_params.app_handle@,
            ),
            header.is_generated() ==> message.header.is_call_header(
                params.reference.deep_view(),
                Some(params.sila_handle@),
                sila_params.app_handle@,
            ),
    {
        IssueSilaMessage {
            header: header.for_call(
                params.reference,
                Some(params.sila_handle),
                sila_params.app_handle.clone(),
            ),
            message: "issue_msg".to_string(),
            amount: params.amount,
            account_name: params.account_name,
            descriptor: params.descriptor,
            business_uuid: params.business_uuid,
            processing_type: params.processing_type,
        }
    }

    /// The request of `params`, as a new call.
    pub fn from(params: IssueSilaMessageParams, sila_params: &SilaParams) -> (out: Result<
        IssueSilaMessage,
        SerializationError,
    >)
        ensures
            match out {
                Ok(message) => message.carries(params) && message.header.is_call_header(
                    params.reference.deep_view(),
                    Some(params.sila_handle@),
                    sila_params.app_handle@,
                ),
                Err(e) => e == SerializationError::ClockBeforeEpoch,
            },
    {
        match Header::generate() {
            Ok(header) => Ok(IssueSilaMessage::with_header(params, header, sila_params)),
            Err(e) => Err(e),
        }
    }

    /// The members in JSON: `header`, `amount`, `message`, and, each where
    /// it has a value, `account_name`, `descriptor`, `business_uuid`,
    /// `processing_type`.
    pub open spec fn json_members(self) -> Seq<Seq<char>> {
        member("header"@, self.header.json_text()) + integer_member(
            "amount"@,
            self.amount as int,
        ) + string_member("message"@, self.message@) + optional_string_member(
            "account_name"@,
            self.account_name.deep_view(),
        ) + optional_string_member("descriptor"@, self.descriptor.deep_view())
            + optional_string_member("business_uuid"@, self.business_uuid.deep_view())
            + optional_string_member("processing_type"@, issue_wire_text(self.processing_type))
    }

    /// The JSON text of the request, which is its canonical form.
    pub open spec fn json_text(self) -> Seq<char> {
        json_object(self.json_members())
    }

    /// Writes the request as JSON.
    pub fn to_json(&self) -> (out: Result<String, SerializationError>)
        ensures
            match out {
                Ok(text) => text@ == self.json_text(),
                Err(_) => false,
            },
    {
        let header = self.header.to_json()?;
        let processing_type = issue_wire_name(self.processing_type);
        let mut writer = ObjectWriter::new();
        writer.member("header", header.as_str())?;
        writer.integer("amount", self.amount as i64)?;
        writer.string("message", self.message.as_str())?;
        writer.optional_string("account_name", &self.account_name)?;
        writer.optional_string("descriptor", &self.descriptor)?;
        writer.optional_string("business_uuid", &self.business_uuid)?;
        writer.optional_string("processing_type", &processing_type)?;
        assert(writer.members() =~= self.json_members());
        Ok(writer.finish())
    }
}

impl IssueSilaResponse {
    /// The answer in one line, with `none` for what is absent.
    pub open spec fn text(self) -> Seq<char> {
        "IssueSilaResponse(message: "@ + self.message@ + ", reference: "@ + text_or_none(
            self.reference,
        ) + ", transaction_id: "@ + text_or_none(self.transaction_id) + ", status: "@
            + self.status.text() + ")"@
    }

    /// The answer in one line, with `none` for what is absent.
    pub fn to_string(&self) -> (text: String)
        ensures
            text@ == self.text(),
    {
        let mut text = String::from_str("IssueSilaResponse(message: ");
        text.append(self.message.as_str());
        text.append(", reference: ");
        match &self.reference {
            Some(reference) => text.append(reference.as_str()),
            None => text.append("none"),
        }
        text.append(", transaction_id: ");
        match &self.transaction_id {
            Some(id) => text.append(id.as_str()),
            None => text.append("none"),
        }
        text.append(", status: ");
        text.append(self.status.to_string().as_str());
        text.append(")");
        text
    }
}

} // verus!
