//! What a deployment is configured with, and what is handed to transport.

use vstd::prelude::*;

verus! {

/// The credentials and the gateway of one deployment. They are read once, at
/// start, and handed to whoever builds or sends a request.
#[derive(Clone)]
pub struct SilaParams {
    /// The base URL of the gateway, without a trailing slash.
    pub gateway: String,
    /// The application's handle.
    pub app_handle: String,
    /// The application's address, in hexadecimal.
    pub app_address: String,
    /// The application's private key, in hexadecimal, where it is held here.
    pub app_private_key: Option<String>,
}

/// Whether the gateway accepted a request.
#[derive(Clone, Copy, Debug, PartialEq, Eq, Structural)]
pub enum Status {
    SUCCESS,
    FAILURE,
}

/// A canonical message with the signatures that were made over it.
#[derive(Clone)]
pub struct SignedMessageParams {
    pub sila_handle: Option<String>,
    /// The canonical message, exactly as it was hashed.
    pub message: String,
    /// The user's signature, where a user signed.
    pub usersignature: Option<String>,
    /// The application's signature.
    pub authsignature: String,
}

impl Status {
    /// The word the gateway uses for this status.
    pub open spec fn text(self) -> Seq<char> {
        match self {
            Status::SUCCESS => "SUCCESS"@,
            Status::FAILURE => "FAILURE"@,
        }
    }

    /// The status as text.
    pub fn to_string(&self) -> (text: String)
        ensures
            text@ == self.text(),
    {
        match self {
            Status::SUCCESS => "SUCCESS".to_string(),
            Status::FAILURE => "FAILURE".to_string(),
        }
    }
}

/// The text of a value that may be absent: the value, or `none`.
pub open spec fn text_or_none(value: Option<String>) -> Seq<char> {
    match value {
        Some(text) => text@,
        None => "none"@,
    }
}

/// A copy of a text that may be absent.
pub fn copy_text(value: &Option<String>) -> (out: Option<String>)
    ensures
        out == *value,
{
    match value {
        Some(text) => Some(text.clone()),
        None => None,
    }
}

/// A copy of a list of texts.
pub fn copy_texts(values: &Vec<String>) -> (out: Vec<String>)
    ensures
        out@ == values@,
{
    let mut out: Vec<String> = Vec::new();
    let mut i: usize = 0;
    while i < values.len()
        invariant
            i <= values.len(),
            out@ == values@.take(i as int),
        decreases values.len() - i,
    {
        out.push(values[i].clone());
        assert(values@.take(i as int).push(values@[i as int]) =~= values@.take(i + 1));
        i += 1;
    }
    assert(values@.take(values.len() as int) =~= values@);
    out
}

} // verus!
