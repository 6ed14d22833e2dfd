//! What is handed to transport: where a signed message goes, under which
//! headers, and with which body.
//!
//! The body is the canonical message itself, byte for byte as it was hashed.
//! Nothing here parses it or writes it anew.

use vstd::prelude::*;
use vstd::string::StringExecFns;

use crate::endpoints::wallet::get_sila_balance::RequestSilaBalanceParams;
use crate::error::{RequestError, SerializationError};
use crate::params::{copy_text, SignedMessageParams};

verus! {

/// The endpoints of the gateway that take a signed message.
#[derive(Clone, Copy, Debug, PartialEq, Eq, Structural)]
pub enum Endpoint {
    LinkAccount,
    CheckKyc,
    GetEntity,
    CheckHandle,
    Register,
    RequestKyc,
    UpdateAddress,
    UpdateEmail,
    UpdateIdentity,
    UpdatePhone,
    CancelTransaction,
    GetTransactions,
    IssueSila,
    RedeemSila,
    TransferSila,
}

/// One request, ready to be sent with `POST`.
pub struct Request {
    /// Where the request goes.
    pub url: String,
    /// The user's signature, for the header `usersignature`; the header is
    /// left out where there is none.
    pub usersignature: Option<String>,
    /// The application's signature, for the header `authsignature`; the
    /// header is left out where there is none.
    pub authsignature: Option<String>,
    /// The body, in JSON.
    pub body: String,
}

/// The path of the endpoint that tells the balance of a wallet.
pub open spec fn balance_path() -> Seq<char> {
    "get_sila_balance"@
}

/// The URL of an endpoint: the gateway, a slash, the path.
pub open spec fn endpoint_url(gateway: Seq<char>, path: Seq<char>) -> Seq<char> {
    gateway + seq!['/'] + path
}

impl Endpoint {
    /// The path of the endpoint below the gateway.
    pub open spec fn path_text(self) -> Seq<char> {
        match self {
            Endpoint::LinkAccount => "link_account"@,
            Endpoint::CheckKyc => "check_kyc"@,
            Endpoint::GetEntity => "get_entity"@,
            Endpoint::CheckHandle => "check_handle"@,
            Endpoint::Register => "register"@,
            Endpoint::RequestKyc => "request_kyc"@,
            Endpoint::UpdateAddress => "update/address"@,
            Endpoint::UpdateEmail => "update/email"@,
            Endpoint::UpdateIdentity => "update/identity"@,
            Endpoint::UpdatePhone => "update/email"@,
            Endpoint::CancelTransaction => "cancel_transaction"@,
            Endpoint::GetTransactions => "get_transactions"@,
            Endpoint::IssueSila => "issue_sila"@,
            Endpoint::RedeemSila => "redeem_sila"@,
            Endpoint::TransferSila => "transfer_sila"@,
        }
    }

    /// Whether the endpoint takes no request without the user's signature.
    /// The three that read without changing anything do.
    pub open spec fn needs_user_signature(self) -> bool {
        !(self == Endpoint::GetEntity || self == Endpoint::CheckHandle || self
            == Endpoint::GetTransactions)
    }

    /// The path of the endpoint below the gateway.
    pub fn path(&self) -> (path: &'static str)
        ensures
            path@ == self.path_text(),
    {
        match self {
            Endpoint::LinkAccount => "link_account",
            Endpoint::CheckKyc => "check_kyc",
            Endpoint::GetEntity => "get_entity",
            Endpoint::CheckHandle => "check_handle",
            Endpoint::Register => "register",
            Endpoint::RequestKyc => "request_kyc",
            Endpoint::UpdateAddress => "update/address",
            Endpoint::UpdateEmail => "update/email",
            Endpoint::UpdateIdentity => "update/identity",
            Endpoint::UpdatePhone => "update/email",
            Endpoint::CancelTransaction => "cancel_transaction",
            Endpoint::GetTransactions => "get_transactions",
            Endpoint::IssueSila => "issue_sila",
            Endpoint::RedeemSila => "redeem_sila",
            Endpoint::TransferSila => "transfer_sila",
        }
    }

    /// Whether the endpoint takes no request without the user's signature.
    pub fn requires_user_signature(&self) -> (needed: bool)
        ensures
            needed == self.needs_user_signature(),
    {
        match self {
            Endpoint::GetEntity => false,
            Endpoint::CheckHandle => false,
            Endpoint::GetTransactions => false,
            _ => true,
        }
    }
}

/// The URL of a path below the gateway.
pub fn url_of(gateway: &str, path: &str) -> (url: String)
    ensures
        url@ == endpoint_url(gateway@, path@),
{
    proof {
        reveal_strlit("/");
    }
    let mut url = String::from_str(gateway);
    url.append("/");
    url.append(path);
    assert(url@ =~= endpoint_url(gateway@, path@));
    url
}

/// Plans the request that carries a signed message to an endpoint: the
/// body is the message as it was signed, the application's signature goes
/// into its header, and the user's into its own where there is one. An
/// endpoint that wants the user's signature gets no request without it.
pub fn plan_request(gateway: &str, endpoint: Endpoint, params: &SignedMessageParams) -> (out:
    Result<Request, RequestError>)
    ensures
        match out {
            Ok(request) => {
                &&& !(endpoint.needs_user_signature() && params.usersignature is None)
                &&& request.url@ == endpoint_url(gateway@, endpoint.path_text())
                &&& request.body@ == params.message@
                &&& request.usersignature.deep_view() == params.usersignature.deep_view()
                &&& request.authsignature.deep_view() == Some(params.authsignature@)
            },
            Err(e) => {
                &&& endpoint.needs_user_signature()
                &&& params.usersignature is None
                &&& e == RequestError::MissingUserSignature
            },
        },
{
    if endpoint.requires_user_signature() && params.usersignature.is_none() {
        return Err(RequestError::MissingUserSignature);
    }
    Ok(
        Request {
            url: url_of(gateway, endpoint.path()),
            usersignature: copy_text(&params.usersignature),
            authsignature: Some(params.authsignature.clone()),
            body: params.message.clone(),
        },
    )
}

/// Plans the request that asks for the balance of a wallet. It carries no
/// signature; its body is the parameters in JSON.
pub fn plan_balance_request(gateway: &str, params: &RequestSilaBalanceParams) -> (out: Result<
    Request,
    SerializationError,
>)
    ensures
        match out {
            Ok(request) => {
                &&& request.url@ == endpoint_url(gateway@, balance_path())
                &&& request.body@ == params.json_text()
                &&& request.usersignature is None
                &&& request.authsignature is None
            },
            Err(_) => false,
        },
{
    let body = params.to_json()?;
    Ok(
        Request {
            url: url_of(gateway, "get_sila_balance"),
            usersignature: None,
            authsignature: None,
            body,
        },
    )
}

} // verus!
