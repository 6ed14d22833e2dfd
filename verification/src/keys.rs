//! Key material, as text and as bytes, and what is handed to a signer.

use vstd::prelude::*;

use crate::address::{h160_from_str, h256_from_str, parse_h160, parse_h256};
use crate::error::SigningError;
use crate::hash::{hash_message, message_digest};

verus! {

/// Key material as it is configured: an address and, where the key is held
/// on this host, a private key, both in hexadecimal.
#[derive(Clone)]
pub struct KeyParams {
    pub address: String,
    pub private_key: Option<String>,
}

/// A canonical message and the key material of those who sign it.
pub struct SignDataParams {
    pub message: String,
    pub user_params: Option<KeyParams>,
    pub app_params: KeyParams,
}

/// What one signer is handed: who signs, what is signed, and with which key.
#[derive(Copy, Clone)]
pub struct SignData {
    pub address: [u8; 20],
    pub message_hash: [u8; 32],
    pub private_key: Option<[u8; 32]>,
}

/// The signing requests of one call. Both are over the same digest.
#[derive(Copy, Clone)]
pub struct SignDataPair {
    pub user: Option<SignData>,
    pub app: SignData,
}

/// A signing request with its key material still in text form.
pub struct SignParams {
    pub message_hash: [u8; 32],
    pub address: String,
    pub private_key: String,
}

impl KeyParams {
    /// Why this key material cannot be read, if it cannot. The private key
    /// is read before the address.
    pub open spec fn parse_error(self) -> Option<SigningError> {
        if self.private_key is Some && h256_from_str(self.private_key->0@) is None {
            Some(SigningError::MalformedPrivateKey)
        } else if h160_from_str(self.address@) is None {
            Some(SigningError::MalformedAddress)
        } else {
            None
        }
    }

    /// Whether `data` holds the bytes that this key material stands for.
    pub open spec fn parses_to(self, data: SignData) -> bool {
        &&& h160_from_str(self.address@) == Some(data.address@)
        &&& match self.private_key {
            Some(text) => data.private_key is Some && h256_from_str(text@) == Some(
                data.private_key->0@,
            ),
            None => data.private_key is None,
        }
    }
}

impl SignData {
    /// Puts a signing request together from what reading the key material
    /// gave: `address` is `None` where the address text was refused, and
    /// `private_key` is `Some(None)` where there was a key text and it was
    /// refused. A refused private key is reported before a refused address.
    pub fn from_parsed(
        address: Option<[u8; 20]>,
        private_key: Option<Option<[u8; 32]>>,
        message_hash: [u8; 32],
    ) -> (out: Result<SignData, SigningError>)
        ensures
            match out {
                Ok(data) => {
                    &&& private_key != Some(None::<[u8; 32]>)
                    &&& address == Some(data.address)
                    &&& data.message_hash == message_hash
                    &&& data.private_key == match private_key {
                        Some(key) => key,
                        None => None,
                    }
                },
                Err(e) => if private_key == Some(None::<[u8; 32]>) {
                    e == SigningError::MalformedPrivateKey
                } else {
                    address is None && e == SigningError::MalformedAddress
                },
            },
    {
        let private_key = match private_key {
            Some(None) => {
                return Err(SigningError::MalformedPrivateKey);
            },
            Some(Some(key)) => Some(key),
            None => None,
        };
        match address {
            Some(address) => Ok(SignData { address, message_hash, private_key }),
            None => Err(SigningError::MalformedAddress),
        }
    }

    /// Reads key material and pairs it with the digest to be signed.
    pub fn from_key(key: &KeyParams, message_hash: [u8; 32]) -> (out: Result<
        SignData,
        SigningError,
    >)
        ensures
            match out {
                Ok(data) => key.parse_error() is None && key.parses_to(data) && data.message_hash
                    == message_hash,
                Err(e) => key.parse_error() == Some(e),
            },
    {
        let private_key = match &key.private_key {
            Some(text) => Some(parse_h256(text.as_str())),
            None => None,
        };
        let address = parse_h160(key.address.as_str());
        SignData::from_parsed(address, private_key, message_hash)
    }
}

impl SignDataParams {
    /// Why the key material cannot be read, if it cannot. The user's is read
    /// before the application's.
    pub open spec fn parse_error(self) -> Option<SigningError> {
        if self.user_params is Some && self.user_params->0.parse_error() is Some {
            self.user_params->0.parse_error()
        } else {
            self.app_params.parse_error()
        }
    }
}

impl SignDataPair {
    /// Both requests are over one and the same digest.
    pub open spec fn same_digest(self) -> bool {
        self.user is Some ==> self.user->0.message_hash@ == self.app.message_hash@
    }

    /// Whether this pair is what `params` stands for: the digest of the
    /// message, once, in both requests, and the key material as bytes.
    pub open spec fn is_from(self, params: SignDataParams) -> bool {
        &&& self.app.message_hash@ == message_digest(params.message@)
        &&& params.app_params.parses_to(self.app)
        &&& match params.user_params {
            Some(user) => self.user is Some && user.parses_to(self.user->0)
                && self.user->0.message_hash@ == message_digest(params.message@),
            None => self.user is None,
        }
    }

    /// Hashes the message once and reads the key material of both signers.
    /// The user's request is there exactly when user key material is.
    /// Key material that cannot be read is an error, the user's first.
    pub fn from(params: SignDataParams) -> (out: Result<SignDataPair, SigningError>)
        ensures
            match out {
                Ok(pair) => params.parse_error() is None && pair.is_from(params)
                    && pair.same_digest(),
                Err(e) => params.parse_error() == Some(e),
            },
    {
        let hash = hash_message(params.message.as_str());
        let user = match &params.user_params {
            Some(key) => match SignData::from_key(key, hash) {
                Ok(data) => Some(data),
                Err(e) => {
                    return Err(e);
                },
            },
            None => None,
        };
        match SignData::from_key(&params.app_params, hash) {
            Ok(app) => Ok(SignDataPair { user, app }),
            Err(e) => Err(e),
        }
    }
}

} // verus!
