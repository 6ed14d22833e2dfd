//! Account addresses and private keys as text: reading them, writing them,
//! and the mixed-case checksum form.

use vstd::prelude::*;
use vstd::string::is_ascii;

use crate::encoding::hex_lower;

verus! {

/// What `H160::from_str` makes of a text: the 20 bytes it stands for, or
/// nothing where the text is refused.
pub uninterp spec fn h160_from_str(text: Seq<char>) -> Option<Seq<u8>>;

/// What `H256::from_str` makes of a text: the 32 bytes it stands for, or
/// nothing where the text is refused.
pub uninterp spec fn h256_from_str(text: Seq<char>) -> Option<Seq<u8>>;

/// What `eth_checksum::checksum` makes of an address text.
pub uninterp spec fn eip55_checksum(address: Seq<char>) -> Seq<char>;

/// An address as the gateway writes it: `0x`, then forty lower-case
/// hexadecimal digits.
pub open spec fn address_hex(address: Seq<u8>) -> Seq<char> {
    seq!['0', 'x'] + hex_lower(address)
}

/// `<web3::types::H160 as FromStr>::from_str`: the bytes are what the text
/// stands for, and there are none exactly where the text is refused. The
/// outcome depends on the text alone.
#[verifier::external_body]
pub(crate) fn parse_h160(text: &str) -> (out: Option<[u8; 20]>)
    ensures
        match out {
            Some(bytes) => h160_from_str(text@) == Some(bytes@),
            None => h160_from_str(text@) is None,
        },
{
    match <web3::types::H160 as std::str::FromStr>::from_str(text) {
        Ok(hash) => Some(hash.to_fixed_bytes()),
        Err(_) => None,
    }
}

/// `<web3::types::H256 as FromStr>::from_str`: the bytes are what the text
/// stands for, and there are none exactly where the text is refused. The
/// outcome depends on the text alone.
#[verifier::external_body]
pub(crate) fn parse_h256(text: &str) -> (out: Option<[u8; 32]>)
    ensures
        match out {
            Some(bytes) => h256_from_str(text@) == Some(bytes@),
            None => h256_from_str(text@) is None,
        },
{
    match <web3::types::H256 as std::str::FromStr>::from_str(text) {
        Ok(hash) => Some(hash.to_fixed_bytes()),
        Err(_) => None,
    }
}

/// `web3::types::H160` formatted with `{:#x}`: `0x` and two lower-case
/// hexadecimal digits for each of the 20 bytes, in order.
#[verifier::external_body]
pub(crate) fn format_h160(address: &[u8; 20]) -> (text: String)
    ensures
        text@ == address_hex(address@),
{
    format!("{:#x}", web3::types::H160::from(*address))
}

/// `eth_checksum::checksum`, which indexes a 64-character digest by the
/// position of each character of the address and so needs a short address.
#[verifier::external_body]
fn eth_checksum(address: &str) -> (text: String)
    requires
        is_ascii(address),
        address@.len() <= 64,
    ensures
        text@ == eip55_checksum(address@),
{
    eth_checksum::checksum(address)
}

/// The mixed-case checksum form of an address, for an address of ASCII
/// characters that is no longer than a digest written in hexadecimal.
pub fn checksum(address: &str) -> (text: String)
    requires
        is_ascii(address),
        address@.len() <= 64,
    ensures
        text@ == eip55_checksum(address@),
{
    eth_checksum(address)
}

} // verus!
