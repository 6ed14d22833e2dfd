use silamoney::transport::url_of;
use silamoney::{
    plan_balance_request, plan_request, Endpoint, RequestError, RequestSilaBalanceParams,
    SignedMessageParams,
};

const GATEWAY: &str = "https://sandbox.silamoney.com/0.2";

fn signed(usersignature: Option<&str>) -> SignedMessageParams {
    SignedMessageParams {
        sila_handle: None,
        message: "{\"header\":{},\"message\":\"header_msg\"}".to_string(),
        usersignature: usersignature.map(|s| s.to_string()),
        authsignature: "aa1b".to_string(),
    }
}

#[test]
fn every_endpoint_has_its_path() {
    assert_eq!(Endpoint::LinkAccount.path(), "link_account");
    assert_eq!(Endpoint::CheckKyc.path(), "check_kyc");
    assert_eq!(Endpoint::GetEntity.path(), "get_entity");
    assert_eq!(Endpoint::CheckHandle.path(), "check_handle");
    assert_eq!(Endpoint::Register.path(), "register");
    assert_eq!(Endpoint::RequestKyc.path(), "request_kyc");
    assert_eq!(Endpoint::UpdateAddress.path(), "update/address");
    assert_eq!(Endpoint::UpdateEmail.path(), "update/email");
    assert_eq!(Endpoint::UpdateIdentity.path(), "update/identity");
    assert_eq!(Endpoint::UpdatePhone.path(), "update/email");
    assert_eq!(Endpoint::CancelTransaction.path(), "cancel_transaction");
    assert_eq!(Endpoint::GetTransactions.path(), "get_transactions");
    assert_eq!(Endpoint::IssueSila.path(), "issue_sila");
    assert_eq!(Endpoint::RedeemSila.path(), "redeem_sila");
    assert_eq!(Endpoint::TransferSila.path(), "transfer_sila");
}

#[test]
fn reading_endpoints_do_without_the_user_signature() {
    let optional = [Endpoint::GetEntity, Endpoint::CheckHandle, Endpoint::GetTransactions];
    let all = [
        Endpoint::LinkAccount,
        Endpoint::CheckKyc,
        Endpoint::GetEntity,
        Endpoint::CheckHandle,
        Endpoint::Register,
        Endpoint::RequestKyc,
        Endpoint::UpdateAddress,
        Endpoint::UpdateEmail,
        Endpoint::UpdateIdentity,
        Endpoint::UpdatePhone,
        Endpoint::CancelTransaction,
        Endpoint::GetTransactions,
        Endpoint::IssueSila,
        Endpoint::RedeemSila,
        Endpoint::TransferSila,
    ];
    for endpoint in all {
        assert_eq!(endpoint.requires_user_signature(), !optional.contains(&endpoint));
        let plan = plan_request(GATEWAY, endpoint, &signed(None));
        if optional.contains(&endpoint) {
            let request = plan.unwrap();
            assert_eq!(request.usersignature, None);
            assert_eq!(request.authsignature.as_deref(), Some("aa1b"));
        } else {
            assert_eq!(plan.err(), Some(RequestError::MissingUserSignature));
        }
        let request = plan_request(GATEWAY, endpoint, &signed(Some("bb1c"))).unwrap();
        assert_eq!(request.usersignature.as_deref(), Some("bb1c"));
        assert_eq!(request.authsignature.as_deref(), Some("aa1b"));
        assert_eq!(request.url, format!("{}/{}", GATEWAY, endpoint.path()));
    }
}

#[test]
fn the_body_is_the_message_as_it_was_signed() {
    let params = SignedMessageParams {
        sila_handle: Some("user".to_string()),
        message: "{ \"odd\" :  \"spacing\",\n\"kept\":true }".to_string(),
        usersignature: Some("u".to_string()),
        authsignature: "a".to_string(),
    };
    let request = plan_request(GATEWAY, Endpoint::TransferSila, &params).unwrap();
    assert_eq!(request.body, params.message);
    assert_eq!(request.url, "https://sandbox.silamoney.com/0.2/transfer_sila");
}

#[test]
fn urls_are_gateway_slash_path() {
    assert_eq!(url_of("http://h", "p"), "http://h/p");
    assert_eq!(url_of("", ""), "/");
    assert_eq!(url_of("http://h/", "update/address"), "http://h//update/address");
}

#[test]
fn balance_request_is_unsigned() {
    let params = RequestSilaBalanceParams { blockchain_address: "0xabc".to_string() };
    let request = plan_balance_request(GATEWAY, &params).unwrap();
    assert_eq!(request.url, "https://sandbox.silamoney.com/0.2/get_sila_balance");
    assert_eq!(request.body, "{\"blockchain_address\":\"0xabc\"}");
    assert_eq!(request.usersignature, None);
    assert_eq!(request.authsignature, None);
}
