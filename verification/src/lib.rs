//! Client-side request authentication for the Sila gateway.
//!
//! Every state-changing call carries an application signature and, where a
//! user is involved, a user signature. Both are made over the Keccak-256
//! digest of the exact bytes of the JSON request body.

pub mod address;
pub mod encoding;
pub mod endpoints;
pub mod error;
pub mod hash;
pub mod header;
pub mod json;
pub mod keys;
pub mod params;
pub mod signature;
pub mod signer;
pub mod transport;

pub use address::checksum;
pub use endpoints::account::link_account::{LinkMessage, LinkMessageParams};
pub use endpoints::entity::check_kyc::CheckKycMessageParams;
pub use endpoints::entity::register::{RegisterMessage, RegisterMessageParams};
pub use endpoints::entity::request_kyc::RequestKycMessageParams;
pub use endpoints::entity::update::address::{
    update_address_message, UpdateAddressMessage, UpdateAddressMessageParams,
};
pub use endpoints::entity::update::email::{UpdateEmailMessage, UpdateEmailMessageParams};
pub use endpoints::entity::update::identity::{
    UpdateIdentityMessage, UpdateIdentityMessageParams,
};
pub use endpoints::entity::update::phone::{
    update_phone_message, UpdatePhoneMessage, UpdatePhoneMessageParams,
};
pub use endpoints::entity::{
    check_handle_message, get_entity_message, Address, CheckHandleMessageParams, Contact,
    CryptoEntry, Entity, Identity, RequestEntityMessageParams, RequestEntityParams,
};
pub use endpoints::transaction::cancel_transaction::{
    CancelTransactionMessage, CancelTransactionMessageParams,
};
pub use endpoints::transaction::get_transactions::{
    get_transactions_message, GetTransactionsMessage, GetTransactionsMessageParams,
    TransactionSearchFilters,
};
pub use endpoints::transaction::issue_sila::{
    IssueProcessingType, IssueSilaMessage, IssueSilaMessageParams, IssueSilaResponse,
};
pub use endpoints::transaction::redeem_sila::{
    RedeemProcessingType, RedeemSilaMessage, RedeemSilaMessageParams, RedeemSilaResponse,
};
pub use endpoints::transaction::transfer_sila::{
    transfer_sila_message, TransferSilaMessage, TransferSilaMessageParams,
};
pub use endpoints::wallet::get_sila_balance::RequestSilaBalanceParams;
pub use error::{AuthError, EncodingError, RequestError, SerializationError, SigningError};
pub use hash::hash_message;
pub use header::{header_message, Header, HeaderMessage};
pub use keys::{KeyParams, SignData, SignDataPair, SignDataParams, SignParams};
pub use params::{SignedMessageParams, SilaParams, Status};
pub use signature::{encode, Signature};
pub use signer::{
    assemble_signatures, authenticate, authenticate_message, default_sign, sign_locally,
    sign_pair, Signatures, Signer, SigningSession, SigningStep,
};
pub use transport::{plan_balance_request, plan_request, Endpoint, Request};
