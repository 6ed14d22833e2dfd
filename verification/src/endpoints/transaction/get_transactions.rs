//! Looking up transactions.

use vstd::prelude::*;

use crate::endpoints::transaction::issue_sila::{
    issue_wire_name, issue_wire_text, IssueProcessingType,
};
use crate::error::SerializationError;
use crate::header::Header;
use crate::json::{
    int_of, int_of_i32, json_null, json_object, member, optional_bool_member,
    optional_integer_member, optional_string_array_member, optional_string_member, string_member,
    ObjectWriter,
};
use crate::params::{copy_text, copy_texts, SilaParams};

verus! {

/// Which transactions are looked for. In JSON a member is there exactly
/// when the filter has a value.
#[derive(Clone)]
pub struct TransactionSearchFilters {
    pub transaction_id: Option<String>,
    pub reference_id: Option<String>,
    pub show_timelines: Option<bool>,
    pub sort_ascending: Option<bool>,
    pub max_sila_amount: Option<i32>,
    pub min_sila_amount: Option<i32>,
    pub statuses: Option<Vec<String>>,
    pub start_epoch: Option<i64>,
    pub end_epoch: Option<i64>,
    pub page: Option<i32>,
    pub per_page: Option<i32>,
    pub transaction_types: Option<Vec<String>>,
    pub bank_account_name: Option<String>,
    pub blockchain_address: Option<String>,
    pub processing_type: Option<IssueProcessingType>,
    pub payment_method_id: Option<String>,
}

/// The request that looks up transactions.
pub struct GetTransactionsMessage {
    pub header: Header,
    pub message: String,
    pub search_filters: Option<TransactionSearchFilters>,
}

/// Whose transactions are looked up, and which of them.
pub struct GetTransactionsMessageParams {
    pub sila_handle: Option<String>,
    pub reference: Option<String>,
    pub search_filters: Option<TransactionSearchFilters>,
}

/// Every status a transaction can have, in the order of its life.
pub open spec fn all_statuses() -> Seq<Seq<char>> {
    seq![
        "queued"@,
        "pending"@,
        "pending_confirmation"@,
        "reversed"@,
        "failed"@,
        "success"@,
        "rollback"@,
        "review"@,
    ]
}

/// Every type a transaction can have.
pub open spec fn all_transaction_types() -> Seq<Seq<char>> {
    seq!["issue"@, "redeem"@, "transfer"@]
}

/// A copy of a list of texts that may be absent.
fn copy_text_list(value: &Option<Vec<String>>) -> (out: Option<Vec<String>>)
    ensures
        out.deep_view() == value.deep_view(),
{
    match value {
        Some(items) => {
            let copy = copy_texts(items);
            assert(copy.deep_view() =~= items.deep_view());
            Some(copy)
        },
        None => None,
    }
}

impl TransactionSearchFilters {
    /// Whether two sets of filters say the same.
    pub open spec fn same_as(self, other: TransactionSearchFilters) -> bool {
        &&& self.transaction_id.deep_view() == other.transaction_id.deep_view()
        &&& self.reference_id.deep_view() == other.reference_id.deep_view()
        &&& self.show_timelines == other.show_timelines
        &&& self.sort_ascending == other.sort_ascending
        &&& self.max_sila_amount == other.max_sila_amount
        &&& self.min_sila_amount == other.min_sila_amount
        &&& self.statuses.deep_view() == other.statuses.deep_view()
        &&& self.start_epoch == other.start_epoch
        &&& self.end_epoch == other.end_epoch
        &&& self.page == other.page
        &&& self.per_page == other.per_page
        &&& self.transaction_types.deep_view() == other.transaction_types.deep_view()
        &&& self.bank_account_name.deep_view() == other.bank_account_name.deep_view()
        &&& self.blockchain_address.deep_view() == other.blockchain_address.deep_view()
        &&& self.processing_type == other.processing_type
        &&& self.payment_method_id.deep_view() == other.payment_method_id.deep_view()
    }

    /// A copy of these filters.
    pub fn copy(&self) -> (out: TransactionSearchFilters)
        ensures
            out.same_as(*self),
    {
        TransactionSearchFilters {
            transaction_id: copy_text(&self.transaction_id),
            reference_id: copy_text(&self.reference_id),
            show_timelines: self.show_timelines,
            sort_ascending: self.sort_ascending,
            max_sila_amount: self.max_sila_amount,
            min_sila_amount: self.min_sila_amount,
            statuses: copy_text_list(&self.statuses),
            start_epoch: self.start_epoch,
            end_epoch: self.end_epoch,
            page: self.page,
            per_page: self.per_page,
            transaction_types: copy_text_list(&self.transaction_types),
            bank_account_name: copy_text(&self.bank_account_name),
            blockchain_address: copy_text(&self.blockchain_address),
            processing_type: self.processing_type,
            payment_method_id: copy_text(&self.payment_method_id),
        }
    }

    /// The members in JSON, in the order of the fields; a filter without a
    /// value has no member.
    pub open spec fn json_members(self) -> Seq<Seq<char>> {
        optional_string_member("transaction_id"@, self.transaction_id.deep_view())
            + optional_string_member("reference_id"@, self.reference_id.deep_view())
            + optional_bool_member("show_timelines"@, self.show_timelines) + optional_bool_member(
            "sort_ascending"@,
            self.sort_ascending,
        ) + optional_integer_member("max_sila_amount"@, int_of_i32(self.max_sila_amount))
            + optional_integer_member("min_sila_amount"@, int_of_i32(self.min_sila_amount))
            + optional_string_array_member("statuses"@, self.statuses.deep_view())
            + optional_integer_member("start_epoch"@, int_of(self.start_epoch))
            + optional_integer_member("end_epoch"@, int_of(self.end_epoch))
            + optional_integer_member("page"@, int_of_i32(self.page)) + optional_integer_member(
            "per_page"@,
            int_of_i32(self.per_page),
        ) + optional_string_array_member("transaction_types"@, self.transaction_types.deep_view())
            + optional_string_member("bank_account_name"@, self.bank_account_name.deep_view())
            + optional_string_member("blockchain_address"@, self.blockchain_address.deep_view())
            + optional_string_member("processing_type"@, issue_wire_text(self.processing_type))
            + optional_string_member("payment_method_id"@, self.payment_method_id.deep_view())
    }

    /// The filters as JSON text.
    pub open spec fn json_text(self) -> Seq<char> {
        json_object(self.json_members())
    }

    /// Writes the filters as JSON.
    pub fn to_json(&self) -> (out: Result<String, SerializationError>)
        ensures
            match out {
                Ok(text) => text@ == self.json_text(),
                Err(_) => false,
            },
    {
        let processing_type = issue_wire_name(self.processing_type);
        let mut writer = ObjectWriter::new();
        writer.optional_string("transaction_id", &self.transaction_id)?;
        writer.optional_string("reference_id", &self.reference_id)?;
        writer.optional_boolean("show_timelines", self.show_timelines)?;
        writer.optional_boolean("sort_ascending", self.sort_ascending)?;
        writer.optional_i32("max_sila_amount", self.max_sila_amount)?;
        writer.optional_i32("min_sila_amount", self.min_sila_amount)?;
        writer.optional_string_array("statuses", &self.statuses)?;
        writer.optional_integer("start_epoch", self.start_epoch)?;
        writer.optional_integer("end_epoch", self.end_epoch)?;
        writer.optional_i32("page", self.page)?;
        writer.optional_i32("per_page", self.per_page)?;
        writer.optional_string_array("transaction_types", &self.transaction_types)?;
        writer.optional_string("bank_account_name", &self.bank_account_name)?;
        writer.optional_string("blockchain_address", &self.blockchain_address)?;
        writer.optional_string("processing_type", &processing_type)?;
        writer.optional_string("payment_method_id", &self.payment_method_id)?;
        assert(writer.members() =~= self.json_members());
        Ok(writer.finish())
    }
}

impl Default for TransactionSearchFilters {
    /// Every transaction of every status and type, the newest first, with
    /// its timeline, twenty to a page, beginning with the first page.
    fn default() -> (filters: TransactionSearchFilters)
        ensures
            filters.transaction_id is None,
            filters.reference_id is None,
            filters.show_timelines == Some(true),
            filters.sort_ascending == Some(false),
            filters.max_sila_amount is None,
            filters.min_sila_amount is None,
            filters.statuses.deep_view() == Some(all_statuses()),
            filters.start_epoch is None,
            filters.end_epoch is None,
            filters.page == Some(1i32),
            filters.per_page == Some(20i32),
            filters.transaction_types.deep_view() == Some(all_transaction_types()),
            filters.bank_account_name is None,
            filters.blockchain_address is None,
            filters.processing_type is None,
            filters.payment_method_id is None,
    {
        let statuses = vec![
            "queued".to_string(),
            "pending".to_string(),
            "pending_confirmation".to_string(),
            "reversed".to_string(),
            "failed".to_string(),
            "success".to_string(),
            "rollback".to_string(),
            "review".to_string(),
        ];
        let transaction_types = vec![
            "issue".to_string(),
            "redeem".to_string(),
            "transfer".to_string(),
        ];
        assert(statuses.deep_view() =~= all_statuses());
        assert(transaction_types.deep_view() =~= all_transaction_types());
        TransactionSearchFilters {
            transaction_id: None,
            reference_id: None,
            show_timelines: Some(true),
            sort_ascending: Some(false),
            max_sila_amount: None,
            min_sila_amount: None,
            statuses: Some(statuses),
            start_epoch: None,
            end_epoch: None,
            page: Some(1),
            per_page: Some(20),
            transaction_types: Some(transaction_types),
            bank_account_name: None,
            blockchain_address: None,
            processing_type: None,
            payment_method_id: None,
        }
    }
}

impl Default for GetTransactionsMessageParams {
    /// The transactions of the user with the empty handle, under the
    /// filters that [`TransactionSearchFilters`] starts with.
    fn default() -> (params: GetTransactionsMessageParams)
        ensures
            params.sila_handle.deep_view() == Some(Seq::<char>::empty()),
            params.reference is None,
            params.search_filters is Some,
            params.search_filters->0.show_timelines == Some(true),
            params.search_filters->0.sort_ascending == Some(false),
            params.search_filters->0.statuses.deep_view() == Some(all_statuses()),
            params.search_filters->0.page == Some(1i32),
            params.search_filters->0.per_page == Some(20i32),
            params.search_filters->0.transaction_types.deep_view() == Some(
                all_transaction_types(),
            ),
    {
        GetTransactionsMessageParams {
            sila_handle: Some(String::new()),
            reference: None,
            search_filters: Some(TransactionSearchFilters::default()),
        }
    }
}

impl GetTransactionsMessage {
    /// Whether the business fields of this request are those of `params`.
    pub open spec fn carries(self, params: GetTransactionsMessageParams) -> bool {
        &&& self.message@ == "get_transactions_msg"@
        &&& match params.search_filters {
            Some(filters) => self.search_filters is Some && self.search_filters->0.same_as(
                filters,
            ),
            None => self.search_filters is None,
        }
    }

    /// The request of `params`, on the header given.
    pub fn with_header(
        params: &GetTransactionsMessageParams,
        header: Header,
        sila_params: &SilaParams,
    ) -> (message: GetTransactionsMessage)
        ensures
            message.carries(*params),
            message.header.is_call_header_from(
                header,
                None,
                params.sila_handle.deep_view(),
                sila_params.app_handle@,
            ),
            header.is_generated() ==> message.header.is_call_header(
                None,
                params.sila_handle.deep_view(),
                sila_params.app_handle@,
            ),
    {
        GetTransactionsMessage {
            header: header.for_call(
                None,
                copy_text(&params.sila_handle),
                sila_params.app_handle.clone(),
            ),
            message: "get_transactions_msg".to_string(),
            search_filters: match &params.search_filters {
                Some(filters) => Some(filters.copy()),
                None => None,
            },
        }
    }

    /// The members in JSON: `header`, `message`, and `search_filters`,
    /// which is `null` where there are no filters.
    pub open spec fn json_members(self) -> Seq<Seq<char>> {
        member("header"@, self.header.json_text()) + string_member("message"@, self.message@)
            + member(
            "search_filters"@,
            match self.search_filters {
                Some(filters) => filters.json_text(),
                None => json_null(),
            },
        )
    }

    /// The JSON text of the request, which is its canonical form.
    pub open spec fn json_text(self) -> Seq<char> {
        json_object(self.json_members())
    }

    /// Writes the request as JSON.
    pub fn to_json(&self) -> (out: Result<String, SerializationError>)
        ensures
            match out {
                Ok(text) => text@ == self.json_text(),
                Err(_) => false,
            },
    {
        let header = self.header.to_json()?;
        let mut writer = ObjectWriter::new();
        writer.member("header", header.as_str())?;
        writer.string("message", self.message.as_str())?;
        match &self.search_filters {
            Some(filters) => {
                let text = filters.to_json()?;
                writer.member("search_filters", text.as_str())?;
            },
            None => {
                proof {
                    reveal_strlit("null");
                    assert("null"@ =~= json_null());
                }
                writer.member("search_filters", "null")?;
            },
        }
        assert(writer.members() =~= self.json_members());
        Ok(writer.finish())
    }
}

/// Whether `text` is the canonical message of a call that looks up
/// transactions as `params` say, made by the application `app_handle`.
pub open spec fn is_get_transactions_text(
    text: Seq<char>,
    params: GetTransactionsMessageParams,
    app_handle: Seq<char>,
) -> bool {
    exists|message: GetTransactionsMessage|
        message.carries(params) && message.header.is_call_header(
            None,
            params.sila_handle.deep_view(),
            app_handle,
        ) && text == #[trigger] message.json_text()
}

/// The canonical message of a new call that looks up transactions.
pub fn get_transactions_message(
    params: &GetTransactionsMessageParams,
    sila_params: &SilaParams,
) -> (out: Result<String, SerializationError>)
    ensures
        match out {
            Ok(text) => is_get_transactions_text(text@, *params, sila_params.app_handle@),
            Err(e) => e == SerializationError::ClockBeforeEpoch,
        },
{
    let header = Header::generate()?;
    let message = GetTransactionsMessage::with_header(params, header, sila_params);
    message.to_json()
}

} // verus!
