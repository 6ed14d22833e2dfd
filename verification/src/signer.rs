//! Signing as a capability, the signer that holds its keys on this host, and
//! the orchestration of the two signatures of one call.

use vstd::prelude::*;

use crate::encoding::hex_lower;
use crate::error::{AuthError, EncodingError, SigningError};
use crate::hash::message_digest;
use crate::keys::{SignData, SignDataPair, SignDataParams};
use crate::params::SignedMessageParams;
use crate::signature::{
    is_signature_text, lemma_wire_text_shape, recovery_id_encodable, Signature,
};

verus! {

/// The order of the secp256k1 group. A private key is a number from 1 up to,
/// but not including, this.
pub open spec fn curve_order() -> nat {
    0xFFFFFFFF_FFFFFFFF_FFFFFFFF_FFFFFFFE_BAAEDCE6_AF48A03B_BFD25E8C_D0364141nat
}

/// The number that bytes stand for, the most significant byte first.
pub open spec fn big_endian(bytes: Seq<u8>) -> nat
    decreases bytes.len(),
{
    if bytes.len() == 0 {
        0
    } else {
        big_endian(bytes.drop_last()) * 256 + bytes.last() as nat
    }
}

/// Whether 32 bytes are a private key of the curve.
pub open spec fn valid_secret_key(key: Seq<u8>) -> bool {
    key.len() == 32 && 0 < big_endian(key) < curve_order()
}

/// The recoverable signature that secp256k1 makes of a 32-byte digest under
/// a valid private key, with the nonce of RFC 6979: the recovery identifier
/// and the 64 compact bytes, `r` before `s`.
pub uninterp spec fn ecdsa_sign_recoverable(digest: Seq<u8>, secret_key: Seq<u8>) -> (
    int,
    Seq<u8>,
);

/// The error type of the `secp256k1` crate.
#[verifier::external_type_specification]
#[verifier::external_body]
pub struct ExSecp256k1Error(secp256k1::Error);

/// `Secp256k1::sign_ecdsa_recoverable` on a fresh context, between
/// `Message::from_slice` and `SecretKey::from_slice` on the way in and
/// `RecoverableSignature::serialize_compact` and `RecoveryId::to_i32` on the
/// way out. It fails exactly when the key is refused, which is when the key
/// is zero or not below the order of the curve. The signature depends on the
/// digest and the key alone.
#[verifier::external_body]
fn secp256k1_sign(digest: &[u8; 32], secret_key: &[u8; 32]) -> (out: Result<
    (i32, [u8; 64]),
    secp256k1::Error,
>)
    ensures
        match out {
            Ok(pair) => {
                &&& valid_secret_key(secret_key@)
                &&& pair.0 == ecdsa_sign_recoverable(digest@, secret_key@).0
                &&& pair.1@ == ecdsa_sign_recoverable(digest@, secret_key@).1
            },
            Err(_) => !valid_secret_key(secret_key@),
        },
{
    let message = secp256k1::Message::from_slice(digest)?;
    let key = secp256k1::SecretKey::from_slice(secret_key)?;
    let signature = secp256k1::Secp256k1::new().sign_ecdsa_recoverable(&message, &key);
    let (id, compact) = signature.serialize_compact();
    Ok((id.to_i32(), compact))
}

/// Whether `out` is what signing `data` on this host gives.
pub open spec fn is_local_signature(data: SignData, out: Result<Signature, SigningError>) -> bool {
    match out {
        Ok(signature) => {
            &&& data.private_key is Some
            &&& valid_secret_key(data.private_key->0@)
            &&& signature.recovery_id == ecdsa_sign_recoverable(
                data.message_hash@,
                data.private_key->0@,
            ).0
            &&& signature.r@ + signature.s@ == ecdsa_sign_recoverable(
                data.message_hash@,
                data.private_key->0@,
            ).1
        },
        Err(e) => if data.private_key is None {
            e == SigningError::MissingPrivateKey
        } else {
            !valid_secret_key(data.private_key->0@) && e == SigningError::InvalidPrivateKey
        },
    }
}

/// Splits the 64 compact bytes of a signature into `r` and `s`.
pub fn split_compact(recovery_id: i32, compact: &[u8; 64]) -> (signature: Signature)
    ensures
        signature.recovery_id == recovery_id,
        signature.r@ == compact@.subrange(0, 32),
        signature.s@ == compact@.subrange(32, 64),
        signature.r@ + signature.s@ == compact@,
{
    let mut r: [u8; 32] = [0u8; 32];
    let mut s: [u8; 32] = [0u8; 32];
    let mut i: usize = 0;
    while i < 32
        invariant
            i <= 32,
            forall|j: int| 0 <= j < i ==> r@[j] == compact@[j],
            forall|j: int| 0 <= j < i ==> s@[j] == compact@[32 + j],
        decreases 32 - i,
    {
        r[i] = compact[i];
        s[i] = compact[32 + i];
        i += 1;
    }
    assert(r@ =~= compact@.subrange(0, 32));
    assert(s@ =~= compact@.subrange(32, 64));
    assert(r@ + s@ =~= compact@);
    Signature { r, s, recovery_id }
}

/// Signs on this host: ECDSA over secp256k1, in recoverable form, with the
/// private key that `data` carries. There is no signature without a private
/// key, and none under a key that is zero or not below the order of the
/// curve.
pub fn sign_locally(data: SignData) -> (out: Result<Signature, SigningError>)
    ensures
        is_local_signature(data, out),
{
    match data.private_key {
        None => Err(SigningError::MissingPrivateKey),
        Some(key) => match secp256k1_sign(&data.message_hash, &key) {
            Ok((recovery_id, compact)) => Ok(split_compact(recovery_id, &compact)),
            Err(_) => Err(SigningError::InvalidPrivateKey),
        },
    }
}

/// The two signature headers of one call, in transport form.
pub struct Signatures {
    pub usersignature: Option<String>,
    pub authsignature: String,
}

/// What a pair of signature headers says, as plain text.
pub struct SignaturesView {
    pub usersignature: Option<Seq<char>>,
    pub authsignature: Seq<char>,
}

impl View for Signatures {
    type V = SignaturesView;

    open spec fn view(&self) -> SignaturesView {
        SignaturesView {
            usersignature: match self.usersignature {
                Some(text) => Some(text@),
                None => None,
            },
            authsignature: self.authsignature@,
        }
    }
}

/// A signing capability: a function from a signing request to a signature.
/// It holds no state of its own and can sign any number of requests.
pub struct Signer<F> where F: Fn(SignData) -> Result<Signature, SigningError> {
    pub sign_func: F,
}

impl<F> Signer<F> where F: Fn(SignData) -> Result<Signature, SigningError> {
    /// Wraps a signing function.
    pub fn new(signer: F) -> (out: Signer<F>)
        ensures
            out.sign_func == signer,
    {
        Signer { sign_func: signer }
    }

    /// Hands the request to the signing function and returns what it gave.
    pub fn sign(&self, sign_data: SignData) -> (out: Result<Signature, SigningError>)
        requires
            call_requires(self.sign_func, (sign_data,)),
        ensures
            call_ensures(self.sign_func, (sign_data,), out),
    {
        (self.sign_func)(sign_data)
    }
}

/// What the two signing outcomes of one call amount to. The application's
/// outcome is looked at first: its failure is the failure of the call,
/// whatever the user's was. `user` is `None` where no user signs.
pub open spec fn assembled(
    app: Result<Signature, SigningError>,
    user: Option<Result<Signature, SigningError>>,
) -> Result<SignaturesView, AuthError> {
    match app {
        Err(e) => Err(AuthError::Signing(e)),
        Ok(app_signature) => if !app_signature.encodable() {
            Err(AuthError::Encoding(EncodingError::RecoveryIdOutOfRange))
        } else {
            match user {
                None => Ok(
                    SignaturesView {
                        usersignature: None,
                        authsignature: app_signature.wire_text(),
                    },
                ),
                Some(Err(e)) => Err(AuthError::Signing(e)),
                Some(Ok(user_signature)) => if !user_signature.encodable() {
                    Err(AuthError::Encoding(EncodingError::RecoveryIdOutOfRange))
                } else {
                    Ok(
                        SignaturesView {
                            usersignature: Some(user_signature.wire_text()),
                            authsignature: app_signature.wire_text(),
                        },
                    )
                },
            }
        },
    }
}

impl SignaturesView {
    /// Whether every signature there is has the shape of a signature
    /// header: 130 lower-case hexadecimal digits, the last two `1b` or `1c`.
    pub open spec fn well_shaped(self) -> bool {
        &&& is_signature_text(self.authsignature)
        &&& match self.usersignature {
            Some(text) => is_signature_text(text),
            None => true,
        }
    }
}

/// Whatever the signers answer, the headers of a call that succeeds are
/// 65 bytes in hexadecimal each, and each ends in `1b` or `1c`.
pub proof fn lemma_assembled_is_well_shaped(
    app: Result<Signature, SigningError>,
    user: Option<Result<Signature, SigningError>>,
)
    ensures
        assembled(app, user) matches Ok(signatures) ==> signatures.well_shaped(),
{
    if assembled(app, user) is Ok {
        let a = app->Ok_0;
        lemma_wire_text_shape(a.r@, a.s@, a.recovery_id as int);
        if user is Some {
            let u = user->0->Ok_0;
            lemma_wire_text_shape(u.r@, u.s@, u.recovery_id as int);
        }
    }
}

/// Where no user signs, a call that succeeds has no user signature, and it
/// succeeds exactly when the application's signing did and its signature
/// can be encoded.
pub proof fn lemma_no_user_no_user_signature(app: Result<Signature, SigningError>)
    ensures
        assembled(app, None) matches Ok(signatures) ==> signatures.usersignature is None,
        assembled(app, None) is Ok <==> app is Ok && app->Ok_0.encodable(),
{
}

/// A call whose application signature fails is a failure with the
/// application signer's own error, whatever the user's signer did.
pub proof fn lemma_app_failure_fails_the_call(
    error: SigningError,
    user: Option<Result<Signature, SigningError>>,
)
    ensures
        assembled(Err(error), user) == Err::<SignaturesView, AuthError>(
            AuthError::Signing(error),
        ),
{
}

/// There is no partial result: a call that succeeds had every signing that
/// it needed succeed.
pub proof fn lemma_all_or_nothing(
    app: Result<Signature, SigningError>,
    user: Option<Result<Signature, SigningError>>,
)
    ensures
        assembled(app, user) is Ok ==> app is Ok && (user is Some ==> user->0 is Ok),
        assembled(app, user) matches Ok(signatures) ==> (signatures.usersignature is Some
            <==> user is Some),
{
}

/// A signer whose every answer to the application's request is a failure
/// makes the call fail.
pub proof fn lemma_signed_by_failing_app_signer<F>(
    signer: &Signer<F>,
    pair: SignDataPair,
    out: Result<Signatures, AuthError>,
) where F: Fn(SignData) -> Result<Signature, SigningError>
    requires
        signed_by(signer, pair, out),
        forall|answer: Result<Signature, SigningError>|
            call_ensures(signer.sign_func, (pair.app,), answer) ==> answer is Err,
    ensures
        out is Err,
{
}

/// Whether `out` says what `expected` says.
pub open spec fn signatures_are(
    out: Result<Signatures, AuthError>,
    expected: Result<SignaturesView, AuthError>,
) -> bool {
    match out {
        Ok(signatures) => expected == Ok::<SignaturesView, AuthError>(signatures@),
        Err(e) => expected == Err::<SignaturesView, AuthError>(e),
    }
}

/// Encodes the signatures of one call and puts the two headers together.
/// Either both headers that the call needs are there, or the call fails as a
/// whole: a signer's error comes back unchanged, the application's first.
pub fn assemble_signatures(
    app: Result<Signature, SigningError>,
    user: Option<Result<Signature, SigningError>>,
) -> (out: Result<Signatures, AuthError>)
    ensures
        signatures_are(out, assembled(app, user)),
        out matches Ok(signatures) ==> signatures@.well_shaped(),
{
    proof {
        lemma_assembled_is_well_shaped(app, user);
    }
    let app_signature = match app {
        Ok(signature) => signature,
        Err(e) => {
            return Err(AuthError::Signing(e));
        },
    };
    let authsignature = match app_signature.to_hex() {
        Ok(text) => text,
        Err(e) => {
            return Err(AuthError::Encoding(e));
        },
    };
    let usersignature = match user {
        None => None,
        Some(Err(e)) => {
            return Err(AuthError::Signing(e));
        },
        Some(Ok(user_signature)) => match user_signature.to_hex() {
            Ok(text) => Some(text),
            Err(e) => {
                return Err(AuthError::Encoding(e));
            },
        },
    };
    Ok(Signatures { usersignature, authsignature })
}

/// Whether `out` is an outcome of having `signer` sign the requests of
/// `pair`: there are answers of the signer, the application's and, where a
/// user signs and the application's signing succeeded, the user's, that
/// amount to `out`.
pub open spec fn signed_by<F>(
    signer: &Signer<F>,
    pair: SignDataPair,
    out: Result<Signatures, AuthError>,
) -> bool where F: Fn(SignData) -> Result<Signature, SigningError> {
    exists|app: Result<Signature, SigningError>, user: Option<Result<Signature, SigningError>>|
        {
            &&& call_ensures(signer.sign_func, (pair.app,), app)
            &&& user is Some ==> pair.user is Some && call_ensures(
                signer.sign_func,
                (pair.user->0,),
                user->0,
            )
            &&& user is None ==> pair.user is None || app is Err
            &&& #[trigger] signatures_are(out, assembled(app, user))
        }
}

/// Signs one digest for up to two key holders. The application signs first;
/// when it fails the user's signer is not asked. The user signs where there
/// is a user request.
pub fn sign_pair<F>(pair: SignDataPair, signer: &Signer<F>) -> (out: Result<
    Signatures,
    AuthError,
>) where F: Fn(SignData) -> Result<Signature, SigningError>
    requires
        call_requires(signer.sign_func, (pair.app,)),
        pair.user is Some ==> call_requires(signer.sign_func, (pair.user->0,)),
    ensures
        signed_by(signer, pair, out),
        pair.user is None ==> (out matches Ok(signatures) ==> signatures.usersignature is None),
        out matches Ok(signatures) ==> signatures@.well_shaped(),
{
    let app = signer.sign(pair.app);
    let user = match pair.user {
        Some(data) if app.is_ok() => Some(signer.sign(data)),
        _ => None,
    };
    let out = assemble_signatures(app, user);
    out
}

/// Whether `signed` is `message` with an outcome of having `signer` sign the
/// requests of `pair` over it.
pub open spec fn is_signed_message<F>(
    signed: SignedMessageParams,
    sila_handle: Option<String>,
    message: Seq<char>,
    signer: &Signer<F>,
    pair: SignDataPair,
) -> bool where F: Fn(SignData) -> Result<Signature, SigningError> {
    &&& signed.message@ == message
    &&& signed.sila_handle == sila_handle
    &&& signed_by(
        signer,
        pair,
        Ok(
            Signatures {
                usersignature: signed.usersignature,
                authsignature: signed.authsignature,
            },
        ),
    )
}

/// Authenticates one call and pairs the signatures with the message they
/// were made over. The message comes back exactly as it went in: it is
/// hashed once, never written anew, and what is handed to transport is what
/// was signed.
pub fn authenticate_message<F>(
    sila_handle: Option<String>,
    params: SignDataParams,
    signer: &Signer<F>,
) -> (out: Result<SignedMessageParams, AuthError>) where
    F: Fn(SignData) -> Result<Signature, SigningError>,

    requires
        forall|data: SignData|
            data.message_hash@ == message_digest(params.message@) ==> call_requires(
                signer.sign_func,
                (data,),
            ),
    ensures
        match out {
            Ok(signed) => {
                &&& params.parse_error() is None
                &&& exists|pair: SignDataPair|
                    pair.is_from(params) && #[trigger] is_signed_message(
                        signed,
                        sila_handle,
                        params.message@,
                        signer,
                        pair,
                    )
                &&& params.user_params is None ==> signed.usersignature is None
                &&& is_signature_text(signed.authsignature@)
                &&& signed.usersignature matches Some(text) ==> is_signature_text(text@)
            },
            Err(failure) => match params.parse_error() {
                Some(e) => failure == AuthError::Signing(e),
                None => exists|pair: SignDataPair|
                    pair.is_from(params) && #[trigger] signed_by(
                        signer,
                        pair,
                        Err::<Signatures, AuthError>(failure),
                    ),
            },
        },
{
    let message = params.message.clone();
    let pair = match SignDataPair::from(params) {
        Ok(pair) => pair,
        Err(e) => {
            return Err(AuthError::Signing(e));
        },
    };
    match sign_pair(pair, signer) {
        Ok(signatures) => {
            let signed = SignedMessageParams {
                sila_handle,
                message,
                usersignature: signatures.usersignature,
                authsignature: signatures.authsignature,
            };
            assert(is_signed_message(signed, sila_handle, params.message@, signer, pair));
            Ok(signed)
        },
        Err(failure) => Err(failure),
    }
}

/// Where the signing of one call stands while a signer is waited for.
///
/// It is for signers that cannot answer at once: the caller is told what to
/// have signed, waits for its signer, and comes back with the answer, until
/// the call is done.
pub enum SigningSession {
    /// The application's signature is being waited for; the user's request,
    /// if there is one, comes after it.
    AwaitingApp { user: Option<SignData> },
    /// The application has signed, and the user's signature is being waited
    /// for.
    AwaitingUser { app: Signature },
}

/// What a caller that waits for its signer has to do next.
pub enum SigningStep {
    /// Have this request signed, and answer the session with what the signer
    /// gave.
    Sign(SigningSession, SignData),
    /// Nothing: this is the outcome of the call.
    Done(Result<Signatures, AuthError>),
}

impl SigningSession {
    /// Begins the signing of the requests of `pair`, with the application's.
    pub fn begin_with(pair: SignDataPair) -> (step: SigningStep)
        ensures
            step == SigningStep::Sign(SigningSession::AwaitingApp { user: pair.user }, pair.app),
    {
        SigningStep::Sign(SigningSession::AwaitingApp { user: pair.user }, pair.app)
    }

    /// Begins the authentication of one call: hashes the message once and
    /// reads the key material. Where that fails the call is done at once;
    /// otherwise the application's request is the first to be signed.
    pub fn begin(params: SignDataParams) -> (step: SigningStep)
        ensures
            match params.parse_error() {
                Some(e) => {
                    &&& step matches SigningStep::Done(failed)
                    &&& failed matches Err(failure)
                    &&& failure == AuthError::Signing(e)
                },
                None => {
                    &&& step matches SigningStep::Sign(session, app)
                    &&& session matches SigningSession::AwaitingApp { user }
                    &&& (SignDataPair { user, app }).is_from(params)
                },
            },
    {
        match SignDataPair::from(params) {
            Ok(pair) => SigningSession::begin_with(pair),
            Err(e) => SigningStep::Done(Err(AuthError::Signing(e))),
        }
    }

    /// Takes the signer's answer to the request that was handed out last.
    ///
    /// After the application's answer the user's request is handed out, if
    /// there is one and the application signed; after the last answer the
    /// call is done, with the outcome that the answers amount to.
    pub fn answer(self, answer: Result<Signature, SigningError>) -> (step: SigningStep)
        ensures
            match self {
                SigningSession::AwaitingApp { user } => if answer is Ok && user is Some {
                    step == SigningStep::Sign(
                        SigningSession::AwaitingUser { app: answer->Ok_0 },
                        user->0,
                    )
                } else {
                    &&& step matches SigningStep::Done(done)
                    &&& signatures_are(done, assembled(answer, None))
                },
                SigningSession::AwaitingUser { app } => {
                    &&& step matches SigningStep::Done(done)
                    &&& signatures_are(done, assembled(Ok(app), Some(answer)))
                },
            },
    {
        match self {
            SigningSession::AwaitingApp { user } => match (answer, user) {
                (Ok(app), Some(data)) => SigningStep::Sign(
                    SigningSession::AwaitingUser { app },
                    data,
                ),
                (answer, _) => SigningStep::Done(assemble_signatures(answer, None)),
            },
            SigningSession::AwaitingUser { app } => SigningStep::Done(
                assemble_signatures(Ok(app), Some(answer)),
            ),
        }
    }
}

/// What signing `data` on this host and encoding the signature gives: the
/// 130 hexadecimal digits of the header, or why there are none.
pub open spec fn local_signature_text(data: SignData) -> Result<Seq<char>, AuthError> {
    match data.private_key {
        None => Err(AuthError::Signing(SigningError::MissingPrivateKey)),
        Some(key) => if !valid_secret_key(key@) {
            Err(AuthError::Signing(SigningError::InvalidPrivateKey))
        } else {
            let signed = ecdsa_sign_recoverable(data.message_hash@, key@);
            if !recovery_id_encodable(signed.0) {
                Err(AuthError::Encoding(EncodingError::RecoveryIdOutOfRange))
            } else {
                Ok(hex_lower(signed.1 + seq![(signed.0 + 27) as u8]))
            }
        },
    }
}

/// What signing both requests on this host amounts to: the application's
/// signature, the user's where a user signs, or the first failure, the
/// application's before the user's.
pub open spec fn locally_signed(user_data: Option<SignData>, app_data: SignData) -> Result<
    SignaturesView,
    AuthError,
> {
    match local_signature_text(app_data) {
        Err(e) => Err(e),
        Ok(authsignature) => match user_data {
            None => Ok(SignaturesView { usersignature: None, authsignature }),
            Some(data) => match local_signature_text(data) {
                Err(e) => Err(e),
                Ok(usersignature) => Ok(
                    SignaturesView { usersignature: Some(usersignature), authsignature },
                ),
            },
        },
    }
}

/// Where no user signs on this host, a call that succeeds has no user
/// signature, and it succeeds exactly when the application's signing and
/// encoding did.
pub proof fn lemma_locally_signed_without_user(app_data: SignData)
    ensures
        locally_signed(None, app_data) matches Ok(signatures) ==> signatures.usersignature
            is None,
        locally_signed(None, app_data) is Ok <==> local_signature_text(app_data) is Ok,
{
}

/// Where the application's signing on this host fails, the call fails with
/// that failure, whatever the user's key material is.
pub proof fn lemma_locally_signed_app_failure(user_data: Option<SignData>, app_data: SignData)
    requires
        local_signature_text(app_data) is Err,
    ensures
        locally_signed(user_data, app_data) == Err::<SignaturesView, AuthError>(
            local_signature_text(app_data)->Err_0,
        ),
{
}

/// Signs both requests with the keys they carry, on this host.
pub fn default_sign(user_data: Option<SignData>, app_data: SignData) -> (out: Result<
    Signatures,
    AuthError,
>)
    ensures
        signatures_are(out, locally_signed(user_data, app_data)),
        user_data is None ==> (out matches Ok(signatures) ==> signatures.usersignature is None),
        out matches Ok(signatures) ==> signatures@.well_shaped(),
{
    let sign = |data: SignData| -> (signed: Result<Signature, SigningError>)
        ensures
            is_local_signature(data, signed),
        {
            sign_locally(data)
        };
    let signer = Signer::new(sign);
    sign_pair(SignDataPair { user: user_data, app: app_data }, &signer)
}

/// Authenticates one call: hashes the canonical message once, has the
/// application and, where there is user key material, the user sign that one
/// digest, and returns the two headers. The message itself is not touched:
/// what is sent is what was hashed.
///
/// A call with key material that cannot be read fails before any signer is
/// asked. Otherwise the outcome is that of the two signings: both headers, or
/// the failure of the call as a whole.
pub fn authenticate<F>(params: SignDataParams, signer: &Signer<F>) -> (out: Result<
    Signatures,
    AuthError,
>) where F: Fn(SignData) -> Result<Signature, SigningError>
    requires
        forall|data: SignData|
            data.message_hash@ == message_digest(params.message@) ==> call_requires(
                signer.sign_func,
                (data,),
            ),
    ensures
        match params.parse_error() {
            Some(e) => out matches Err(failure) && failure == AuthError::Signing(e),
            None => exists|pair: SignDataPair|
                pair.is_from(params) && #[trigger] signed_by(signer, pair, out),
        },
        params.user_params is None ==> (out matches Ok(signatures) ==> signatures.usersignature
            is None),
        out matches Ok(signatures) ==> signatures@.well_shaped(),
{
    let pair = match SignDataPair::from(params) {
        Ok(pair) => pair,
        Err(e) => {
            return Err(AuthError::Signing(e));
        },
    };
    sign_pair(pair, signer)
}

} // verus!
