//! Recoverable ECDSA signatures and their 65-byte Ethereum wire form.
//!
//! A signature leaves the curve as `(r, s, recovery_id)`. On the wire it is
//! `r`, then `s`, then one byte that is the recovery identifier plus 27, and
//! it travels as 130 lower-case hexadecimal digits.

use vstd::prelude::*;

use crate::encoding::{
    hex_digit, hex_encode, hex_lower, is_lower_hex, lemma_hex_digit_is_lower_hex,
};
use crate::error::EncodingError;

verus! {

/// What is added to the recovery identifier to get the last wire byte.
pub const RECOVERY_OFFSET: u8 = 27;

/// A recoverable ECDSA signature over secp256k1, as the curve produced it.
#[derive(Clone, Copy, Debug)]
pub struct Signature {
    /// The first half of the compact signature, big-endian.
    pub r: [u8; 32],
    /// The second half of the compact signature, big-endian.
    pub s: [u8; 32],
    /// Which of the candidate public keys signed; 0 or 1 in every signature
    /// that can be encoded.
    pub recovery_id: i32,
}

/// Whether a recovery identifier has a wire form.
pub open spec fn recovery_id_encodable(recovery_id: int) -> bool {
    recovery_id == 0 || recovery_id == 1
}

/// The wire form: `r`, `s`, and the recovery identifier plus 27.
pub open spec fn wire_bytes(r: Seq<u8>, s: Seq<u8>, recovery_id: int) -> Seq<u8> {
    r + s + seq![(recovery_id + 27) as u8]
}

/// The transport form: the wire bytes in lower-case hexadecimal.
pub open spec fn wire_text(r: Seq<u8>, s: Seq<u8>, recovery_id: int) -> Seq<char> {
    hex_lower(wire_bytes(r, s, recovery_id))
}

impl Signature {
    /// Whether this signature has a wire form.
    pub open spec fn encodable(self) -> bool {
        recovery_id_encodable(self.recovery_id as int)
    }

    /// The wire bytes of this signature.
    pub open spec fn wire_bytes(self) -> Seq<u8> {
        wire_bytes(self.r@, self.s@, self.recovery_id as int)
    }

    /// The transport text of this signature.
    pub open spec fn wire_text(self) -> Seq<char> {
        wire_text(self.r@, self.s@, self.recovery_id as int)
    }

    /// Encodes this signature; see [`encode`].
    pub fn encode(&self) -> (out: Result<[u8; 65], EncodingError>)
        ensures
            match out {
                Ok(bytes) => self.encodable() && bytes@ == self.wire_bytes(),
                Err(e) => !self.encodable() && e == EncodingError::RecoveryIdOutOfRange,
            },
    {
        encode(&self.r, &self.s, self.recovery_id)
    }

    /// The signature as it is put into a request header: 130 lower-case
    /// hexadecimal digits, the last two `1b` or `1c`.
    pub fn to_hex(&self) -> (out: Result<String, EncodingError>)
        ensures
            match out {
                Ok(text) => self.encodable() && text@ == self.wire_text(),
                Err(e) => !self.encodable() && e == EncodingError::RecoveryIdOutOfRange,
            },
    {
        match self.encode() {
            Ok(bytes) => Ok(hex_encode(bytes.as_slice())),
            Err(e) => Err(e),
        }
    }
}

/// Lays a signature out in the 65-byte Ethereum format: bytes 0 to 31 are
/// `r`, bytes 32 to 63 are `s`, and byte 64 is `recovery_id + 27`, that is
/// `0x1b` for 0 and `0x1c` for 1. Any other recovery identifier is refused.
pub fn encode(r: &[u8; 32], s: &[u8; 32], recovery_id: i32) -> (out: Result<
    [u8; 65],
    EncodingError,
>)
    ensures
        match out {
            Ok(bytes) => recovery_id_encodable(recovery_id as int) && bytes@ == wire_bytes(
                r@,
                s@,
                recovery_id as int,
            ),
            Err(e) => !recovery_id_encodable(recovery_id as int) && e
                == EncodingError::RecoveryIdOutOfRange,
        },
{
    let last: u8 = if recovery_id == 0 {
        RECOVERY_OFFSET
    } else if recovery_id == 1 {
        RECOVERY_OFFSET + 1
    } else {
        return Err(EncodingError::RecoveryIdOutOfRange);
    };
    let mut bytes: [u8; 65] = [0u8; 65];
    let mut i: usize = 0;
    while i < 32
        invariant
            i <= 32,
            forall|j: int| 0 <= j < i ==> bytes@[j] == r@[j],
            forall|j: int| 0 <= j < i ==> bytes@[32 + j] == s@[j],
        decreases 32 - i,
    {
        bytes[i] = r[i];
        bytes[32 + i] = s[i];
        i += 1;
    }
    bytes[64] = last;
    assert(bytes@ =~= wire_bytes(r@, s@, recovery_id as int));
    Ok(bytes)
}

/// Every encoded signature is 65 bytes long, begins with `r`, goes on with
/// `s`, and ends in `0x1b` or `0x1c`.
pub proof fn lemma_wire_bytes_layout(r: Seq<u8>, s: Seq<u8>, recovery_id: int)
    requires
        r.len() == 32,
        s.len() == 32,
        recovery_id_encodable(recovery_id),
    ensures
        wire_bytes(r, s, recovery_id).len() == 65,
        wire_bytes(r, s, recovery_id).subrange(0, 32) == r,
        wire_bytes(r, s, recovery_id).subrange(32, 64) == s,
        wire_bytes(r, s, recovery_id)[64] == 0x1b || wire_bytes(r, s, recovery_id)[64] == 0x1c,
        wire_bytes(r, s, recovery_id)[64] == recovery_id + 27,
{
    let w = wire_bytes(r, s, recovery_id);
    assert(w.subrange(0, 32) =~= r);
    assert(w.subrange(32, 64) =~= s);
}

/// Whether a text has the shape of a signature header: 130 lower-case
/// hexadecimal digits, the last two `1b` or `1c`.
pub open spec fn is_signature_text(text: Seq<char>) -> bool {
    &&& text.len() == 130
    &&& forall|i: int| 0 <= i < 130 ==> is_lower_hex(#[trigger] text[i])
    &&& text[128] == '1'
    &&& (text[129] == 'b' || text[129] == 'c')
}

/// The transport text of an encoded signature has 130 lower-case
/// hexadecimal digits and ends in `1b` for the recovery identifier 0 and in
/// `1c` for 1.
pub proof fn lemma_wire_text_shape(r: Seq<u8>, s: Seq<u8>, recovery_id: int)
    requires
        r.len() == 32,
        s.len() == 32,
        recovery_id_encodable(recovery_id),
    ensures
        is_signature_text(wire_text(r, s, recovery_id)),
        recovery_id == 0 ==> wire_text(r, s, recovery_id)[129] == 'b',
        recovery_id == 1 ==> wire_text(r, s, recovery_id)[129] == 'c',
{
    lemma_wire_bytes_layout(r, s, recovery_id);
    let w = wire_bytes(r, s, recovery_id);
    assert(w[64] == 0x1b || w[64] == 0x1c);
    assert(hex_lower(w)[128] == hex_digit(w[64] as int / 16));
    assert(hex_lower(w)[129] == hex_digit(w[64] as int % 16));
    assert forall|i: int| 0 <= i < 130 implies is_lower_hex(#[trigger] hex_lower(w)[i]) by {
        lemma_hex_digit_is_lower_hex(w[i / 2] as int / 16);
        lemma_hex_digit_is_lower_hex(w[i / 2] as int % 16);
    }
}

} // verus!
