use silamoney::endpoints::entity::{check_handle_message, get_entity_message};
use silamoney::endpoints::transaction::get_transactions::get_transactions_message;
use silamoney::json::{bool_text, integer_text, integer_text_of_u64, string_array_text, string_literal};
use silamoney::{
    hash_message, header_message, update_address_message, update_phone_message,
    transfer_sila_message, Address, CancelTransactionMessage, CancelTransactionMessageParams,
    CheckHandleMessageParams, CheckKycMessageParams, Contact, CryptoEntry, Entity,
    GetTransactionsMessage, GetTransactionsMessageParams, Header, HeaderMessage, Identity,
    IssueProcessingType, IssueSilaMessage, IssueSilaMessageParams, IssueSilaResponse, LinkMessage,
    LinkMessageParams, RedeemProcessingType, RedeemSilaMessage, RedeemSilaMessageParams,
    RedeemSilaResponse, RegisterMessage, RegisterMessageParams, RequestEntityMessageParams,
    RequestKycMessageParams, RequestSilaBalanceParams, SilaParams, Status,
    TransactionSearchFilters, TransferSilaMessage, TransferSilaMessageParams,
    UpdateAddressMessage, UpdateAddressMessageParams, UpdateEmailMessage,
    UpdateEmailMessageParams, UpdateIdentityMessage, UpdateIdentityMessageParams,
    UpdatePhoneMessage, UpdatePhoneMessageParams,
};

const REFERENCE: &str = "7b7e3b0c-1d1f-4c57-9a0e-0d0f5a6b7c8d";
const HEADER_JSON: &str = "{\"reference\":\"7b7e3b0c-1d1f-4c57-9a0e-0d0f5a6b7c8d\",\"created\":1600000000,\"user_handle\":\"user.silamoney.eth\",\"auth_handle\":\"app.silamoney.eth\",\"version\":\"0.2\",\"crypto\":\"ETH\"}";

fn sila_params() -> SilaParams {
    SilaParams {
        gateway: "https://sandbox.silamoney.com/0.2".to_string(),
        app_handle: "app.silamoney.eth".to_string(),
        app_address: "0x2c7536E3605D9C16a7a3D7b1898e529396a65c23".to_string(),
        app_private_key: None,
    }
}

fn base_header() -> Header {
    Header::new(REFERENCE.to_string(), 1_600_000_000)
}

fn call_header() -> Header {
    base_header().for_call(
        None,
        Some("user.silamoney.eth".to_string()),
        "app.silamoney.eth".to_string(),
    )
}

fn is_uuid_v4(text: &str) -> bool {
    let chars: Vec<char> = text.chars().collect();
    chars.len() == 36
        && chars.iter().enumerate().all(|(i, c)| {
            if i == 8 || i == 13 || i == 18 || i == 23 {
                *c == '-'
            } else {
                "0123456789abcdef".contains(*c)
            }
        })
        && chars[14] == '4'
        && "89ab".contains(chars[19])
}

fn parse(text: &str) -> serde_json::Value {
    serde_json::from_str(text).unwrap()
}

fn some(text: &str) -> Option<String> {
    Some(text.to_string())
}

#[test]
fn new_header_has_version_and_chain_and_no_handles() {
    let header = base_header();
    assert_eq!(header.reference, REFERENCE);
    assert_eq!(header.created, 1_600_000_000);
    assert_eq!(header.user_handle, None);
    assert_eq!(header.auth_handle, "");
    assert_eq!(header.version, "0.2");
    assert_eq!(header.crypto, "ETH");
}

#[test]
fn generated_header_has_a_fresh_uuid_and_the_present_time() {
    let header = Header::generate().unwrap();
    assert!(is_uuid_v4(&header.reference));
    assert!(header.created > 1_600_000_000);
    assert_eq!(header.user_handle, None);
    assert_eq!(header.auth_handle, "");
    assert_eq!(header.version, "0.2");
    assert_eq!(header.crypto, "ETH");
    let now = std::time::SystemTime::now()
        .duration_since(std::time::UNIX_EPOCH)
        .unwrap()
        .as_secs();
    assert!(header.created <= now && now - header.created < 60);
}

#[test]
fn header_message_is_fresh_every_time() {
    let first = header_message().unwrap();
    let second = header_message().unwrap();
    assert_ne!(first.header.reference, second.header.reference);
    assert!(is_uuid_v4(&first.header.reference));
    assert!(is_uuid_v4(&second.header.reference));
    assert_eq!(first.message, "header_msg");
    assert_eq!(second.message, "header_msg");
}

#[test]
fn two_builds_of_the_same_call_have_different_digests() {
    let params = TransferSilaMessageParams {
        sila_handle: "user.silamoney.eth".to_string(),
        amount: 100,
        destination_handle: "other.silamoney.eth".to_string(),
        ..TransferSilaMessageParams::default()
    };
    let first = transfer_sila_message(&params, &sila_params()).unwrap();
    let second = transfer_sila_message(&params, &sila_params()).unwrap();
    assert_ne!(first, second);
    assert_ne!(hash_message(&first), hash_message(&second));
    assert_ne!(parse(&first)["header"]["reference"], parse(&second)["header"]["reference"]);
    assert_eq!(parse(&first)["amount"], parse(&second)["amount"]);
}

#[test]
fn for_call_fills_in_handles_and_keeps_the_rest() {
    let header = call_header();
    assert_eq!(header.reference, REFERENCE);
    assert_eq!(header.created, 1_600_000_000);
    assert_eq!(header.user_handle, some("user.silamoney.eth"));
    assert_eq!(header.auth_handle, "app.silamoney.eth");
    assert_eq!(header.version, "0.2");
    assert_eq!(header.crypto, "ETH");
    let replaced = base_header().for_call(some("my-reference"), None, "app".to_string());
    assert_eq!(replaced.reference, "my-reference");
    assert_eq!(replaced.user_handle, None);
    assert_eq!(replaced.created, 1_600_000_000);
}

#[test]
fn header_json_is_six_members_in_order() {
    assert_eq!(call_header().to_json().unwrap(), HEADER_JSON);
    assert_eq!(
        base_header().to_json().unwrap(),
        "{\"reference\":\"7b7e3b0c-1d1f-4c57-9a0e-0d0f5a6b7c8d\",\"created\":1600000000,\"user_handle\":null,\"auth_handle\":\"\",\"version\":\"0.2\",\"crypto\":\"ETH\"}"
    );
}

#[test]
fn header_json_reads_back_with_the_json_library() {
    let value = parse(&call_header().to_json().unwrap());
    assert_eq!(value["reference"].as_str(), Some(REFERENCE));
    assert_eq!(value["created"].as_u64(), Some(1_600_000_000));
    assert_eq!(value["user_handle"].as_str(), Some("user.silamoney.eth"));
    assert_eq!(value["auth_handle"].as_str(), Some("app.silamoney.eth"));
    assert_eq!(value["version"].as_str(), Some("0.2"));
    assert_eq!(value["crypto"].as_str(), Some("ETH"));
    assert_eq!(value.as_object().unwrap().len(), 6);
}

#[test]
fn strings_are_escaped_as_the_json_library_does() {
    let cases = [
        "",
        "plain",
        "with \"quotes\" and \\ backslash",
        "line\nbreak\ttab\rreturn",
        "\u{0}\u{1}\u{8}\u{c}\u{1f}\u{7f}",
        "Zoë 日本 😀",
        "</script>",
    ];
    for case in cases {
        assert_eq!(string_literal(case).unwrap(), serde_json::to_string(case).unwrap());
    }
    assert_eq!(string_literal("a\"b").unwrap(), "\"a\\\"b\"");
    assert_eq!(string_literal("a\nb").unwrap(), "\"a\\nb\"");
    assert_eq!(string_literal("\u{1}").unwrap(), "\"\\u0001\"");
}

#[test]
fn escaped_handles_survive_the_round_trip() {
    let header = base_header().for_call(None, some("a\"b\\c\nd"), "é".to_string());
    let value = parse(&header.to_json().unwrap());
    assert_eq!(value["user_handle"].as_str(), Some("a\"b\\c\nd"));
    assert_eq!(value["auth_handle"].as_str(), Some("é"));
}

#[test]
fn integers_are_written_in_decimal() {
    assert_eq!(integer_text_of_u64(0), "0");
    assert_eq!(integer_text_of_u64(7), "7");
    assert_eq!(integer_text_of_u64(10), "10");
    assert_eq!(integer_text_of_u64(1_600_000_000), "1600000000");
    assert_eq!(integer_text_of_u64(u64::MAX), "18446744073709551615");
    assert_eq!(integer_text(0), "0");
    assert_eq!(integer_text(-1), "-1");
    assert_eq!(integer_text(-100), "-100");
    assert_eq!(integer_text(i64::MAX), "9223372036854775807");
    assert_eq!(integer_text(i64::MIN), "-9223372036854775808");
    for value in [0i64, 9, 10, 99, 100, 101, -9, -10, 123_456_789, i64::MIN, i64::MAX] {
        assert_eq!(integer_text(value), serde_json::to_string(&value).unwrap());
    }
    for value in [0u64, 1, 19, 1000, u64::MAX] {
        assert_eq!(integer_text_of_u64(value), serde_json::to_string(&value).unwrap());
    }
}

#[test]
fn booleans_and_arrays_are_written_as_json() {
    assert_eq!(bool_text(true), "true");
    assert_eq!(bool_text(false), "false");
    assert_eq!(string_array_text(&vec![]).unwrap(), "[]");
    assert_eq!(string_array_text(&vec!["a".to_string()]).unwrap(), "[\"a\"]");
    let items = vec!["a".to_string(), "b\"c".to_string(), "".to_string()];
    assert_eq!(string_array_text(&items).unwrap(), "[\"a\",\"b\\\"c\",\"\"]");
    assert_eq!(string_array_text(&items).unwrap(), serde_json::to_string(&items).unwrap());
}

#[test]
fn header_message_json() {
    let message = HeaderMessage::with_header(call_header());
    assert_eq!(message.message, "header_msg");
    assert_eq!(
        message.to_json().unwrap(),
        format!("{{\"header\":{},\"message\":\"header_msg\"}}", HEADER_JSON)
    );
}

#[test]
fn header_message_for_user() {
    let message = HeaderMessage::for_user_with_header(
        base_header(),
        "user.silamoney.eth".to_string(),
        &sila_params(),
    );
    assert_eq!(
        message.to_json().unwrap(),
        format!("{{\"header\":{},\"message\":\"header_msg\"}}", HEADER_JSON)
    );
    let fresh = HeaderMessage::for_user("someone".to_string(), &sila_params()).unwrap();
    assert_eq!(fresh.header.user_handle, some("someone"));
    assert_eq!(fresh.header.auth_handle, "app.silamoney.eth");
    assert!(is_uuid_v4(&fresh.header.reference));
    assert_eq!(fresh.message, "header_msg");
}

#[test]
fn kyc_requests_are_bare_headers() {
    let check = CheckKycMessageParams { sila_handle: "u".to_string() }
        .into_message(&sila_params())
        .unwrap();
    assert_eq!(check.header.user_handle, some("u"));
    assert_eq!(check.header.auth_handle, "app.silamoney.eth");
    assert_eq!(check.message, "header_msg");
    let request = RequestKycMessageParams { sila_handle: "v".to_string() }
        .into_message(&sila_params())
        .unwrap();
    assert_eq!(request.header.user_handle, some("v"));
    assert_eq!(request.message, "header_msg");
    assert_ne!(check.header.reference, request.header.reference);
}

#[test]
fn entity_and_handle_messages_are_bare_headers_in_json() {
    let text = get_entity_message(
        &RequestEntityMessageParams { sila_handle: "u.silamoney.eth".to_string() },
        &sila_params(),
    )
    .unwrap();
    let value = parse(&text);
    assert_eq!(value["header"]["user_handle"].as_str(), Some("u.silamoney.eth"));
    assert_eq!(value["header"]["auth_handle"].as_str(), Some("app.silamoney.eth"));
    assert_eq!(value["header"]["version"].as_str(), Some("0.2"));
    assert_eq!(value["header"]["crypto"].as_str(), Some("ETH"));
    assert!(is_uuid_v4(value["header"]["reference"].as_str().unwrap()));
    assert_eq!(value["message"].as_str(), Some("header_msg"));
    assert!(text.starts_with("{\"header\":{\"reference\":\""));
    assert!(text.ends_with("\"version\":\"0.2\",\"crypto\":\"ETH\"},\"message\":\"header_msg\"}"));
    let text = check_handle_message(
        &CheckHandleMessageParams { sila_handle: "free?".to_string() },
        &sila_params(),
    )
    .unwrap();
    let value = parse(&text);
    assert_eq!(value["header"]["user_handle"].as_str(), Some("free?"));
    assert_eq!(value["message"].as_str(), Some("header_msg"));
}

#[test]
fn link_message_takes_the_account_name_or_default() {
    let params = LinkMessageParams {
        sila_handle: "user.silamoney.eth".to_string(),
        sila_bank_identifier: "bank".to_string(),
        sila_bank_token: "token".to_string(),
        selected_account_id: "acct".to_string(),
        account_name: None,
    };
    assert_eq!(
        params.to_string(),
        "LinkParams ( sila_handle: user.silamoney.eth, bank_identifier: bank, bank_token: token, selected_account_id: acct"
    );
    let message = LinkMessage::with_header(params.clone(), base_header(), &sila_params());
    assert_eq!(message.account_name, "default");
    assert_eq!(message.plaid_token, "token");
    assert_eq!(message.selected_account_id, "acct");
    assert_eq!(
        message.to_json().unwrap(),
        format!(
            "{{\"header\":{},\"plaid_token\":\"token\",\"account_name\":\"default\",\"selected_account_id\":\"acct\"}}",
            HEADER_JSON
        )
    );
    let named = LinkMessageParams { account_name: some("savings"), ..params.clone() };
    let message = LinkMessage::with_header(named, base_header(), &sila_params());
    assert_eq!(message.account_name, "savings");
    let fresh = LinkMessage::from(params, &sila_params()).unwrap();
    assert!(is_uuid_v4(&fresh.header.reference));
    assert_eq!(fresh.header.user_handle, some("user.silamoney.eth"));
    assert_eq!(fresh.account_name, "default");
}

fn register_params() -> RegisterMessageParams {
    let mut address = [0u8; 20];
    for i in 0..20 {
        address[i] = 0xa0 + i as u8;
    }
    RegisterMessageParams {
        sila_handle: "user.silamoney.eth".to_string(),
        ethereum_address: address,
        birthdate: "1990-01-31".to_string(),
        first_name: "Ada".to_string(),
        last_name: "Lovelace".to_string(),
        street_address_1: "1 Main St".to_string(),
        city: "Portland".to_string(),
        state: "OR".to_string(),
        postal_code: "97204".to_string(),
        phone: "503-555-0100".to_string(),
        email: "ada@example.com".to_string(),
        ssn: "123452222".to_string(),
    }
}

#[test]
fn register_message_fills_in_the_defaults() {
    let message = RegisterMessage::with_header(register_params(), base_header(), &sila_params());
    assert_eq!(message.message, "entity_msg");
    assert_eq!(message.entity.relationship, some("user"));
    assert_eq!(message.entity.entity_name, "default");
    assert_eq!(message.entity.first_name, "Ada");
    assert_eq!(message.entity.last_name, "Lovelace");
    assert_eq!(message.entity.birthdate, "1990-01-31");
    assert_eq!(message.address.address_alias, some("default"));
    assert_eq!(message.address.street_address_1, some("1 Main St"));
    assert_eq!(message.address.street_address_2, None);
    assert_eq!(message.address.city, some("Portland"));
    assert_eq!(message.address.state, some("OR"));
    assert_eq!(message.address.postal_code, some("97204"));
    assert_eq!(message.address.country, some("US"));
    assert_eq!(message.address.uuid, None);
    assert_eq!(message.identity.identity_alias, "SSN");
    assert_eq!(message.identity.identity_value, "123452222");
    assert_eq!(message.contact.contact_alias, "default");
    assert_eq!(message.contact.phone, "503-555-0100");
    assert_eq!(message.contact.email, "ada@example.com");
    assert_eq!(message.crypto_entry.crypto_alias, "default");
    assert_eq!(message.crypto_entry.crypto_status, None);
    assert_eq!(
        message.crypto_entry.crypto_address,
        "0xa0a1a2a3a4a5a6a7a8a9aaabacadaeafb0b1b2b3"
    );
    assert_eq!(message.crypto_entry.crypto_code, "ETH");
    assert_eq!(message.header.user_handle, some("user.silamoney.eth"));
}

#[test]
fn register_message_json() {
    let message = RegisterMessage::with_header(register_params(), base_header(), &sila_params());
    let expected = format!(
        "{{\"header\":{},\"message\":\"entity_msg\",\"address\":{{\"address_alias\":\"default\",\"street_address_1\":\"1 Main St\",\"city\":\"Portland\",\"state\":\"OR\",\"postal_code\":\"97204\",\"country\":\"US\"}},\"identity\":{{\"identity_alias\":\"SSN\",\"identity_value\":\"123452222\"}},\"contact\":{{\"phone\":\"503-555-0100\",\"contact_alias\":\"default\",\"email\":\"ada@example.com\"}},\"crypto_entry\":{{\"crypto_alias\":\"default\",\"crypto_status\":null,\"crypto_address\":\"0xa0a1a2a3a4a5a6a7a8a9aaabacadaeafb0b1b2b3\",\"crypto_code\":\"ETH\"}},\"entity\":{{\"birthdate\":\"1990-01-31\",\"entity_name\":\"default\",\"first_name\":\"Ada\",\"last_name\":\"Lovelace\",\"relationship\":\"user\"}}}}",
        HEADER_JSON
    );
    assert_eq!(message.to_json().unwrap(), expected);
    let fresh = RegisterMessage::from(register_params(), &sila_params()).unwrap();
    assert!(is_uuid_v4(&fresh.header.reference));
    assert_eq!(fresh.message, "entity_msg");
}

#[test]
fn entity_parts_json() {
    let address = Address {
        added_epoch: Some(-5),
        modified_epoch: Some(1_600_000_000),
        nickname: some("home"),
        uuid: some("u-1"),
        address_alias: some("a"),
        street_address_1: some("s1"),
        street_address_2: some("s2"),
        city: some("c"),
        state: some("st"),
        postal_code: some("p"),
        country: some("US"),
    };
    assert_eq!(
        address.to_json().unwrap(),
        "{\"added_epoch\":-5,\"modified_epoch\":1600000000,\"nickname\":\"home\",\"uuid\":\"u-1\",\"address_alias\":\"a\",\"street_address_1\":\"s1\",\"street_address_2\":\"s2\",\"city\":\"c\",\"state\":\"st\",\"postal_code\":\"p\",\"country\":\"US\"}"
    );
    let empty = Address {
        added_epoch: None,
        modified_epoch: None,
        nickname: None,
        uuid: None,
        address_alias: None,
        street_address_1: None,
        street_address_2: None,
        city: None,
        state: None,
        postal_code: None,
        country: None,
    };
    assert_eq!(empty.to_json().unwrap(), "{}");
    let identity = Identity { identity_alias: "SSN".to_string(), identity_value: "1".to_string() };
    assert_eq!(identity.to_json().unwrap(), "{\"identity_alias\":\"SSN\",\"identity_value\":\"1\"}");
    let contact = Contact {
        phone: "p".to_string(),
        contact_alias: "c".to_string(),
        email: "e".to_string(),
    };
    assert_eq!(contact.to_json().unwrap(), "{\"phone\":\"p\",\"contact_alias\":\"c\",\"email\":\"e\"}");
    let entry = CryptoEntry {
        crypto_alias: "a".to_string(),
        crypto_status: some("active"),
        crypto_address: "0x00".to_string(),
        crypto_code: "ETH".to_string(),
    };
    assert_eq!(
        entry.to_json().unwrap(),
        "{\"crypto_alias\":\"a\",\"crypto_status\":\"active\",\"crypto_address\":\"0x00\",\"crypto_code\":\"ETH\"}"
    );
    let entity = Entity {
        birthdate: "b".to_string(),
        entity_name: "n".to_string(),
        first_name: "f".to_string(),
        last_name: "l".to_string(),
        relationship: None,
    };
    assert_eq!(
        entity.to_json().unwrap(),
        "{\"birthdate\":\"b\",\"entity_name\":\"n\",\"first_name\":\"f\",\"last_name\":\"l\"}"
    );
}

#[test]
fn update_address_message_leaves_out_what_has_no_value() {
    let defaults = UpdateAddressMessageParams::default();
    assert_eq!(defaults.sila_handle, "");
    assert_eq!(defaults.ethereum_address, [0u8; 20]);
    assert_eq!(defaults.uuid, "");
    assert!(defaults.address_alias.is_none() && defaults.street_address_1.is_none());
    assert!(defaults.street_address_2.is_none() && defaults.city.is_none());
    assert!(defaults.state.is_none() && defaults.postal_code.is_none());
    assert!(defaults.country.is_none());
    let params = UpdateAddressMessageParams {
        sila_handle: "user.silamoney.eth".to_string(),
        uuid: "addr-1".to_string(),
        city: some("Salem"),
        country: some("US"),
        ..UpdateAddressMessageParams::default()
    };
    let message = UpdateAddressMessage::with_header(&params, base_header(), &sila_params());
    assert_eq!(
        message.to_json().unwrap(),
        format!("{{\"header\":{},\"uuid\":\"addr-1\",\"city\":\"Salem\",\"country\":\"US\"}}", HEADER_JSON)
    );
    let text = update_address_message(&params, &sila_params()).unwrap();
    let value = parse(&text);
    assert_eq!(value["uuid"].as_str(), Some("addr-1"));
    assert_eq!(value["city"].as_str(), Some("Salem"));
    assert_eq!(value["country"].as_str(), Some("US"));
    assert_eq!(value.as_object().unwrap().len(), 4);
    assert_eq!(value["header"]["user_handle"].as_str(), Some("user.silamoney.eth"));
    assert!(is_uuid_v4(value["header"]["reference"].as_str().unwrap()));
}

#[test]
fn update_email_and_identity_messages() {
    let email = UpdateEmailMessage::with_header(
        UpdateEmailMessageParams {
            sila_handle: "user.silamoney.eth".to_string(),
            ethereum_address: [0u8; 20],
            uuid: "e-1".to_string(),
            email: "new@example.com".to_string(),
        },
        base_header(),
        &sila_params(),
    );
    assert_eq!(
        email.to_json().unwrap(),
        format!("{{\"header\":{},\"uuid\":\"e-1\",\"email\":\"new@example.com\"}}", HEADER_JSON)
    );
    let identity = UpdateIdentityMessage::with_header(
        UpdateIdentityMessageParams {
            sila_handle: "user.silamoney.eth".to_string(),
            ethereum_address: [0u8; 20],
            uuid: "i-1".to_string(),
            identity_alias: "SSN".to_string(),
            identity_value: "543212222".to_string(),
        },
        base_header(),
        &sila_params(),
    );
    assert_eq!(
        identity.to_json().unwrap(),
        format!(
            "{{\"header\":{},\"uuid\":\"i-1\",\"identity_alias\":\"SSN\",\"identity_value\":\"543212222\"}}",
            HEADER_JSON
        )
    );
    let fresh = UpdateEmailMessage::from(
        UpdateEmailMessageParams {
            sila_handle: "u".to_string(),
            ethereum_address: [0u8; 20],
            uuid: "e-2".to_string(),
            email: "x".to_string(),
        },
        &sila_params(),
    )
    .unwrap();
    assert_eq!(fresh.uuid, "e-2");
    assert_eq!(fresh.header.user_handle, some("u"));
    let fresh = UpdateIdentityMessage::from(
        UpdateIdentityMessageParams {
            sila_handle: "u".to_string(),
            ethereum_address: [0u8; 20],
            uuid: "i-2".to_string(),
            identity_alias: "EIN".to_string(),
            identity_value: "1".to_string(),
        },
        &sila_params(),
    )
    .unwrap();
    assert_eq!(fresh.identity_alias, "EIN");
    assert!(is_uuid_v4(&fresh.header.reference));
}

#[test]
fn update_phone_message_carries_the_number_from_the_email_field() {
    let params = UpdatePhoneMessageParams {
        sila_handle: "user.silamoney.eth".to_string(),
        ethereum_address: [0u8; 20],
        uuid: "p-1".to_string(),
        email: some("503-555-0199"),
        sms_opt_in: Some(true),
    };
    let message = UpdatePhoneMessage::with_header(&params, base_header(), &sila_params());
    assert_eq!(message.phone, some("503-555-0199"));
    assert_eq!(
        message.to_json().unwrap(),
        format!(
            "{{\"header\":{},\"uuid\":\"p-1\",\"phone\":\"503-555-0199\",\"sms_opt_in\":true}}",
            HEADER_JSON
        )
    );
    let bare = UpdatePhoneMessageParams { email: None, sms_opt_in: None, ..params };
    let text = update_phone_message(&bare, &sila_params()).unwrap();
    let value = parse(&text);
    assert_eq!(value.as_object().unwrap().len(), 2);
    assert_eq!(value["uuid"].as_str(), Some("p-1"));
    let no = UpdatePhoneMessageParams { sms_opt_in: Some(false), ..bare };
    let message = UpdatePhoneMessage::with_header(&no, base_header(), &sila_params());
    assert_eq!(
        message.to_json().unwrap(),
        format!("{{\"header\":{},\"uuid\":\"p-1\",\"sms_opt_in\":false}}", HEADER_JSON)
    );
}

#[test]
fn cancel_transaction_message_takes_the_callers_reference() {
    let defaults = CancelTransactionMessageParams::default();
    assert_eq!(defaults.sila_handle, "");
    assert_eq!(defaults.ethereum_address, [0u8; 20]);
    assert_eq!(defaults.transaction_id, "");
    assert_eq!(defaults.reference, None);
    let message = CancelTransactionMessage::with_header(
        CancelTransactionMessageParams {
            sila_handle: "user.silamoney.eth".to_string(),
            transaction_id: "tx-1".to_string(),
            ..CancelTransactionMessageParams::default()
        },
        base_header(),
        &sila_params(),
    );
    assert_eq!(
        message.to_json().unwrap(),
        format!("{{\"header\":{},\"transaction_id\":\"tx-1\"}}", HEADER_JSON)
    );
    let message = CancelTransactionMessage::from(
        CancelTransactionMessageParams {
            sila_handle: "u".to_string(),
            transaction_id: "tx-2".to_string(),
            reference: some("mine"),
            ..CancelTransactionMessageParams::default()
        },
        &sila_params(),
    )
    .unwrap();
    assert_eq!(message.header.reference, "mine");
    assert_eq!(message.transaction_id, "tx-2");
    let message = CancelTransactionMessage::from(
        CancelTransactionMessageParams::default(),
        &sila_params(),
    )
    .unwrap();
    assert!(is_uuid_v4(&message.header.reference));
}

#[test]
fn issue_message_defaults_and_json() {
    let defaults = IssueSilaMessageParams::default();
    assert_eq!(defaults.sila_handle, "");
    assert_eq!(defaults.ethereum_address, [0u8; 20]);
    assert_eq!(defaults.amount, 0);
    assert_eq!(defaults.account_name, some("default"));
    assert_eq!(defaults.descriptor, None);
    assert_eq!(defaults.business_uuid, None);
    assert_eq!(defaults.processing_type, Some(IssueProcessingType::StandardAch));
    assert_eq!(defaults.reference, None);
    let params = IssueSilaMessageParams {
        sila_handle: "user.silamoney.eth".to_string(),
        amount: 100,
        ..IssueSilaMessageParams::default()
    };
    let message = IssueSilaMessage::with_header(params.clone(), base_header(), &sila_params());
    assert_eq!(
        message.to_json().unwrap(),
        format!(
            "{{\"header\":{},\"amount\":100,\"message\":\"issue_msg\",\"account_name\":\"default\",\"processing_type\":\"STANDARD_ACH\"}}",
            HEADER_JSON
        )
    );
    let full = IssueSilaMessageParams {
        amount: -3,
        account_name: None,
        descriptor: some("d"),
        business_uuid: some("b"),
        processing_type: Some(IssueProcessingType::InstantAch),
        reference: some("ref-9"),
        ..params
    };
    let message = IssueSilaMessage::from(full, &sila_params()).unwrap();
    assert_eq!(message.header.reference, "ref-9");
    let value = parse(&message.to_json().unwrap());
    assert_eq!(value["amount"].as_i64(), Some(-3));
    assert_eq!(value["descriptor"].as_str(), Some("d"));
    assert_eq!(value["business_uuid"].as_str(), Some("b"));
    assert_eq!(value["processing_type"].as_str(), Some("INSTANT_ACH"));
    assert!(value.get("account_name").is_none());
    assert_eq!(value["header"]["reference"].as_str(), Some("ref-9"));
}

#[test]
fn processing_types_have_wire_names_and_display_names() {
    assert_eq!(IssueProcessingType::StandardAch.wire_name(), "STANDARD_ACH");
    assert_eq!(IssueProcessingType::SameDayAch.wire_name(), "SAME_DAY_ACH");
    assert_eq!(IssueProcessingType::InstantAch.wire_name(), "INSTANT_ACH");
    assert_eq!(IssueProcessingType::InstantSettlement.wire_name(), "INSTANT_SETTLEMENT");
    assert_eq!(IssueProcessingType::StandardAch.to_string(), "STANDARD_ACH");
    assert_eq!(IssueProcessingType::SameDayAch.to_string(), "SAME_DAY_ACH");
    assert_eq!(IssueProcessingType::InstantAch.to_string(), "INSTANCE_ACH");
    assert_eq!(IssueProcessingType::InstantSettlement.to_string(), "INSTANT_SETTLEMENT");
    assert_eq!(RedeemProcessingType::StandardAch.wire_name(), "StandardAch");
    assert_eq!(RedeemProcessingType::SameDayAch.wire_name(), "SameDayAch");
    assert_eq!(RedeemProcessingType::StandardAch.to_string(), "STANDARD_ACH");
    assert_eq!(RedeemProcessingType::SameDayAch.to_string(), "SAME_DAY_ACH");
    assert_eq!(Status::SUCCESS.to_string(), "SUCCESS");
    assert_eq!(Status::FAILURE.to_string(), "FAILURE");
}

#[test]
fn redeem_message_defaults_and_json() {
    let defaults = RedeemSilaMessageParams::default();
    assert_eq!(defaults.amount, 0);
    assert_eq!(defaults.account_name, some("default"));
    assert_eq!(defaults.processing_type, Some(RedeemProcessingType::StandardAch));
    assert_eq!(defaults.reference, None);
    let params = RedeemSilaMessageParams {
        sila_handle: "user.silamoney.eth".to_string(),
        amount: 2_147_483_647,
        processing_type: Some(RedeemProcessingType::SameDayAch),
        ..RedeemSilaMessageParams::default()
    };
    let message = RedeemSilaMessage::with_header(params.clone(), base_header(), &sila_params());
    assert_eq!(
        message.to_json().unwrap(),
        format!(
            "{{\"header\":{},\"amount\":2147483647,\"message\":\"redeem_msg\",\"account_name\":\"default\",\"processing_type\":\"SameDayAch\"}}",
            HEADER_JSON
        )
    );
    let message = RedeemSilaMessage::from(
        RedeemSilaMessageParams { reference: some("r"), amount: i32::MIN, ..params },
        &sila_params(),
    )
    .unwrap();
    assert_eq!(message.header.reference, "r");
    assert_eq!(parse(&message.to_json().unwrap())["amount"].as_i64(), Some(-2_147_483_648));
}

#[test]
fn responses_are_shown_with_none_for_what_is_absent() {
    let issue = IssueSilaResponse {
        message: "ok".to_string(),
        reference: some("ref"),
        status: Status::SUCCESS,
        success: true,
        transaction_id: None,
        descriptor: None,
    };
    assert_eq!(
        issue.to_string(),
        "IssueSilaResponse(message: ok, reference: ref, transaction_id: none, status: SUCCESS)"
    );
    let redeem = RedeemSilaResponse {
        message: "no".to_string(),
        reference: None,
        status: Status::FAILURE,
        success: false,
        transaction_id: some("tx"),
        descriptor: None,
    };
    assert_eq!(
        redeem.to_string(),
        "RedeemSilaResponse(message: no, reference: none, transaction_id: tx, status: FAILURE)"
    );
}

#[test]
fn transfer_message_defaults_and_json() {
    let defaults = TransferSilaMessageParams::default();
    assert_eq!(defaults.sila_handle, "");
    assert_eq!(defaults.ethereum_address, [0u8; 20]);
    assert_eq!(defaults.amount, 0);
    assert_eq!(defaults.destination_handle, "");
    assert!(defaults.descriptor.is_none() && defaults.destination_address.is_none());
    assert!(defaults.destination_wallet.is_none() && defaults.destination_id.is_none());
    assert!(defaults.source_id.is_none());
    let params = TransferSilaMessageParams {
        sila_handle: "user.silamoney.eth".to_string(),
        amount: 100,
        destination_handle: "other.silamoney.eth".to_string(),
        descriptor: some("rent"),
        destination_address: some("0xabc"),
        destination_wallet: some("w"),
        destination_id: some("dst"),
        source_id: some("src"),
        ..TransferSilaMessageParams::default()
    };
    let message = TransferSilaMessage::with_header(&params, base_header(), &sila_params());
    assert_eq!(
        message.to_json().unwrap(),
        format!(
            "{{\"header\":{},\"amount\":100,\"message\":\"transfer_msg\",\"destination_handle\":\"other.silamoney.eth\",\"descriptor\":\"rent\",\"destination_address\":\"0xabc\",\"destination_wallet\":\"w\",\"source_id\":\"src\",\"destination_id\":\"dst\"}}",
            HEADER_JSON
        )
    );
    let text = transfer_sila_message(&params, &sila_params()).unwrap();
    let value = parse(&text);
    assert_eq!(value["amount"].as_i64(), Some(100));
    assert_eq!(value["message"].as_str(), Some("transfer_msg"));
    assert_eq!(value["destination_handle"].as_str(), Some("other.silamoney.eth"));
    assert_eq!(value["header"]["auth_handle"].as_str(), Some("app.silamoney.eth"));
}

#[test]
fn search_filters_default_to_everything() {
    let filters = TransactionSearchFilters::default();
    assert_eq!(filters.transaction_id, None);
    assert_eq!(filters.reference_id, None);
    assert_eq!(filters.show_timelines, Some(true));
    assert_eq!(filters.sort_ascending, Some(false));
    assert_eq!(filters.max_sila_amount, None);
    assert_eq!(filters.min_sila_amount, None);
    assert_eq!(
        filters.statuses,
        Some(
            ["queued", "pending", "pending_confirmation", "reversed", "failed", "success", "rollback", "review"]
                .iter()
                .map(|s| s.to_string())
                .collect::<Vec<String>>()
        )
    );
    assert_eq!(filters.start_epoch, None);
    assert_eq!(filters.end_epoch, None);
    assert_eq!(filters.page, Some(1));
    assert_eq!(filters.per_page, Some(20));
    assert_eq!(
        filters.transaction_types,
        Some(vec!["issue".to_string(), "redeem".to_string(), "transfer".to_string()])
    );
    assert_eq!(filters.bank_account_name, None);
    assert_eq!(filters.blockchain_address, None);
    assert_eq!(filters.processing_type, None);
    assert_eq!(filters.payment_method_id, None);
    assert_eq!(
        filters.to_json().unwrap(),
        "{\"show_timelines\":true,\"sort_ascending\":false,\"statuses\":[\"queued\",\"pending\",\"pending_confirmation\",\"reversed\",\"failed\",\"success\",\"rollback\",\"review\"],\"page\":1,\"per_page\":20,\"transaction_types\":[\"issue\",\"redeem\",\"transfer\"]}"
    );
}

#[test]
fn search_filters_json_has_every_filter_that_is_set() {
    let filters = TransactionSearchFilters {
        transaction_id: some("t"),
        reference_id: some("r"),
        show_timelines: None,
        sort_ascending: Some(true),
        max_sila_amount: Some(500),
        min_sila_amount: Some(-1),
        statuses: Some(vec![]),
        start_epoch: Some(1),
        end_epoch: Some(2),
        page: None,
        per_page: Some(5),
        transaction_types: None,
        bank_account_name: some("b"),
        blockchain_address: some("0x1"),
        processing_type: Some(IssueProcessingType::InstantSettlement),
        payment_method_id: some("pm"),
    };
    assert_eq!(
        filters.to_json().unwrap(),
        "{\"transaction_id\":\"t\",\"reference_id\":\"r\",\"sort_ascending\":true,\"max_sila_amount\":500,\"min_sila_amount\":-1,\"statuses\":[],\"start_epoch\":1,\"end_epoch\":2,\"per_page\":5,\"bank_account_name\":\"b\",\"blockchain_address\":\"0x1\",\"processing_type\":\"INSTANT_SETTLEMENT\",\"payment_method_id\":\"pm\"}"
    );
    let copy = filters.copy();
    assert_eq!(copy.to_json().unwrap(), filters.to_json().unwrap());
    assert_eq!(copy.statuses, Some(vec![]));
    assert_eq!(copy.processing_type, Some(IssueProcessingType::InstantSettlement));
}

#[test]
fn get_transactions_message_defaults_and_json() {
    let defaults = GetTransactionsMessageParams::default();
    assert_eq!(defaults.sila_handle, some(""));
    assert_eq!(defaults.reference, None);
    assert_eq!(defaults.search_filters.as_ref().unwrap().page, Some(1));
    let params = GetTransactionsMessageParams {
        sila_handle: some("user.silamoney.eth"),
        reference: None,
        search_filters: None,
    };
    let message = GetTransactionsMessage::with_header(&params, base_header(), &sila_params());
    assert_eq!(
        message.to_json().unwrap(),
        format!(
            "{{\"header\":{},\"message\":\"get_transactions_msg\",\"search_filters\":null}}",
            HEADER_JSON
        )
    );
    let text = get_transactions_message(&defaults, &sila_params()).unwrap();
    let value = parse(&text);
    assert_eq!(value["header"]["user_handle"].as_str(), Some(""));
    assert_eq!(value["message"].as_str(), Some("get_transactions_msg"));
    assert_eq!(value["search_filters"]["per_page"].as_i64(), Some(20));
    assert_eq!(value["search_filters"]["statuses"].as_array().unwrap().len(), 8);
    let nobody = GetTransactionsMessageParams { sila_handle: None, ..defaults };
    let value = parse(&get_transactions_message(&nobody, &sila_params()).unwrap());
    assert!(value["header"]["user_handle"].is_null());
}

#[test]
fn balance_request_json() {
    let params = RequestSilaBalanceParams { blockchain_address: "0xabc".to_string() };
    assert_eq!(params.to_json().unwrap(), "{\"blockchain_address\":\"0xabc\"}");
}
