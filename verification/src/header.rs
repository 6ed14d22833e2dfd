//! The header that every request carries, made afresh for every call.

use vstd::prelude::*;

use crate::encoding::is_lower_hex;
use crate::error::SerializationError;
use crate::json::{
    integer_member, json_object, member, nullable_string_member, string_member, ObjectWriter,
};
use crate::params::SilaParams;

verus! {

/// The protocol version that this crate speaks.
pub open spec fn protocol_version() -> Seq<char> {
    "0.2"@
}

/// The symbol of the chain whose curve signs the requests.
pub open spec fn crypto_symbol() -> Seq<char> {
    "ETH"@
}

/// The message type of a request that is a header and nothing else.
pub open spec fn header_message_kind() -> Seq<char> {
    "header_msg"@
}

/// Whether a text is a version-4 UUID in its usual form: 36 characters,
/// lower-case hexadecimal digits in groups of 8, 4, 4, 4 and 12 with a
/// hyphen between them, the third group beginning with `4` and the fourth
/// with `8`, `9`, `a` or `b`.
pub open spec fn is_uuid_v4_text(text: Seq<char>) -> bool {
    &&& text.len() == 36
    &&& forall|i: int|
        0 <= i < 36 ==> if i == 8 || i == 13 || i == 18 || i == 23 {
            #[trigger] text[i] == '-'
        } else {
            is_lower_hex(text[i])
        }
    &&& text[14] == '4'
    &&& (text[19] == '8' || text[19] == '9' || text[19] == 'a' || text[19] == 'b')
}

/// `uuid::Uuid::new_v4`, written out with `to_string`: a random version-4
/// UUID in hyphenated lower-case form. Which one is a matter of chance.
#[verifier::external_body]
fn uuid_v4_text() -> (text: String)
    ensures
        is_uuid_v4_text(text@),
{
    uuid::Uuid::new_v4().to_string()
}

/// A point in time as the operating system counts it.
#[verifier::external_type_specification]
#[verifier::external_body]
pub struct ExSystemTime(std::time::SystemTime);

/// What `SystemTime::duration_since` answers when the clock reads earlier
/// than the point it is compared with.
#[verifier::external_type_specification]
#[verifier::external_body]
pub struct ExSystemTimeError(std::time::SystemTimeError);

/// `SystemTime::now`: what the system clock reads.
#[verifier::external_body]
fn system_time_now() -> std::time::SystemTime {
    std::time::SystemTime::now()
}

/// `SystemTime::duration_since`, against `UNIX_EPOCH`: the time that has
/// passed since the epoch, or an error where the clock reads a time before
/// it.
#[verifier::external_body]
fn since_unix_epoch(time: &std::time::SystemTime) -> Result<
    std::time::Duration,
    std::time::SystemTimeError,
> {
    time.duration_since(std::time::UNIX_EPOCH)
}

/// `Duration::as_secs`: the whole seconds of a duration.
#[verifier::external_body]
fn whole_seconds(duration: &std::time::Duration) -> u64 {
    duration.as_secs()
}

/// The header of one request.
#[derive(Clone)]
pub struct Header {
    /// A version-4 UUID, unique to the call.
    pub reference: String,
    /// Seconds since the Unix epoch at which the header was made.
    pub created: u64,
    /// The handle of the user on whose behalf the call is made, if any.
    pub user_handle: Option<String>,
    /// The application's own handle.
    pub auth_handle: String,
    /// The protocol version.
    pub version: String,
    /// The symbol of the signing curve's chain.
    pub crypto: String,
}

/// A request that is a header and a message type.
#[derive(Clone)]
pub struct HeaderMessage {
    pub header: Header,
    pub message: String,
}

impl Header {
    /// Whether this is the header that was made with `reference` at
    /// `created`, before it is addressed: no handles yet, and the version
    /// and chain of this crate.
    pub open spec fn is_new(self, reference: Seq<char>, created: u64) -> bool {
        &&& self.reference@ == reference
        &&& self.created == created
        &&& self.user_handle is None
        &&& self.auth_handle@ == Seq::<char>::empty()
        &&& self.version@ == protocol_version()
        &&& self.crypto@ == crypto_symbol()
    }

    /// Whether this is the header of a call made for `user_handle` by the
    /// application `auth_handle`: the reference is the one asked for or,
    /// where none was asked for, a version-4 UUID; the handles are the two
    /// given; version and chain are those of this crate.
    pub open spec fn is_call_header(
        self,
        reference: Option<Seq<char>>,
        user_handle: Option<Seq<char>>,
        auth_handle: Seq<char>,
    ) -> bool {
        &&& match reference {
            Some(text) => self.reference@ == text,
            None => is_uuid_v4_text(self.reference@),
        }
        &&& self.user_handle.deep_view() == user_handle
        &&& self.auth_handle@ == auth_handle
        &&& self.version@ == protocol_version()
        &&& self.crypto@ == crypto_symbol()
    }

    /// Whether this header is `base` made into the header of a call: with
    /// the reference asked for, if one was, and the two handles.
    pub open spec fn is_call_header_from(
        self,
        base: Header,
        reference: Option<Seq<char>>,
        user_handle: Option<Seq<char>>,
        auth_handle: Seq<char>,
    ) -> bool {
        &&& self.reference@ == match reference {
            Some(text) => text,
            None => base.reference@,
        }
        &&& self.created == base.created
        &&& self.user_handle.deep_view() == user_handle
        &&& self.auth_handle@ == auth_handle
        &&& self.version@ == base.version@
        &&& self.crypto@ == base.crypto@
    }

    /// Whether this header is as [`Header::generate`] makes it.
    pub open spec fn is_generated(self) -> bool {
        is_uuid_v4_text(self.reference@) && self.is_new(self.reference@, self.created)
    }

    /// The header with the given reference and time of creation.
    pub fn new(reference: String, created: u64) -> (header: Header)
        ensures
            header.is_new(reference@, created),
            header.reference == reference,
    {
        Header {
            reference,
            created,
            user_handle: None,
            auth_handle: String::new(),
            version: "0.2".to_string(),
            crypto: "ETH".to_string(),
        }
    }

    /// A header for a new call: a fresh random reference and the present
    /// time. Two calls give two different references, with all but
    /// negligible probability. The only failure is a system clock that reads
    /// a time before the Unix epoch.
    pub fn generate() -> (out: Result<Header, SerializationError>)
        ensures
            match out {
                Ok(header) => header.is_generated(),
                Err(e) => e == SerializationError::ClockBeforeEpoch,
            },
    {
        let reference = uuid_v4_text();
        let now = system_time_now();
        match since_unix_epoch(&now) {
            Ok(elapsed) => Ok(Header::new(reference, whole_seconds(&elapsed))),
            Err(_) => Err(SerializationError::ClockBeforeEpoch),
        }
    }

    /// The header made into the header of a call: the two handles filled
    /// in, and the reference replaced where the caller brings one.
    pub fn for_call(
        self,
        reference: Option<String>,
        user_handle: Option<String>,
        auth_handle: String,
    ) -> (header: Header)
        ensures
            header.is_call_header_from(
                self,
                reference.deep_view(),
                user_handle.deep_view(),
                auth_handle@,
            ),
    {
        Header {
            reference: match reference {
                Some(text) => text,
                None => self.reference,
            },
            created: self.created,
            user_handle,
            auth_handle,
            version: self.version,
            crypto: self.crypto,
        }
    }

    /// The members of the header in JSON, in the order `reference`,
    /// `created`, `user_handle`, `auth_handle`, `version`, `crypto`, with
    /// `null` for an absent user handle.
    pub open spec fn json_members(self) -> Seq<Seq<char>> {
        string_member("reference"@, self.reference@) + integer_member(
            "created"@,
            self.created as int,
        ) + nullable_string_member("user_handle"@, self.user_handle.deep_view())
            + string_member("auth_handle"@, self.auth_handle@) + string_member(
            "version"@,
            self.version@,
        ) + string_member("crypto"@, self.crypto@)
    }

    /// The JSON text of the header.
    pub open spec fn json_text(self) -> Seq<char> {
        json_object(self.json_members())
    }

    /// Writes the header as JSON.
    pub fn to_json(&self) -> (out: Result<String, SerializationError>)
        ensures
            match out {
                Ok(text) => text@ == self.json_text(),
                Err(_) => false,
            },
    {
        let mut writer = ObjectWriter::new();
        writer.string("reference", self.reference.as_str())?;
        writer.unsigned("created", self.created)?;
        writer.nullable_string("user_handle", &self.user_handle)?;
        writer.string("auth_handle", self.auth_handle.as_str())?;
        writer.string("version", self.version.as_str())?;
        writer.string("crypto", self.crypto.as_str())?;
        assert(writer.members() =~= self.json_members());
        Ok(writer.finish())
    }
}

impl HeaderMessage {
    /// Whether this is the request that carries `header` and nothing but the
    /// message type of a bare header.
    pub open spec fn carries(self, header: Header) -> bool {
        self.header == header && self.message@ == header_message_kind()
    }

    /// The request that carries `header` and nothing else.
    pub fn with_header(header: Header) -> (message: HeaderMessage)
        ensures
            message.carries(header),
    {
        HeaderMessage { header, message: "header_msg".to_string() }
    }

    /// Whether this is the bare header request of a call made for the user
    /// `user_handle` by the application `auth_handle`.
    pub open spec fn is_call_of(self, user_handle: Seq<char>, auth_handle: Seq<char>) -> bool {
        &&& self.header.is_call_header(None, Some(user_handle), auth_handle)
        &&& self.message@ == header_message_kind()
    }

    /// The bare header request of a call for the user `sila_handle`, on the
    /// header given.
    pub fn for_user_with_header(header: Header, sila_handle: String, sila_params: &SilaParams) -> (
        message: HeaderMessage
    )
        ensures
            message.header.is_call_header_from(
                header,
                None,
                Some(sila_handle@),
                sila_params.app_handle@,
            ),
            message.message@ == header_message_kind(),
            header.is_generated() ==> message.is_call_of(sila_handle@, sila_params.app_handle@),
    {
        HeaderMessage::with_header(
            header.for_call(None, Some(sila_handle), sila_params.app_handle.clone()),
        )
    }

    /// The bare header request of a new call for the user `sila_handle`.
    pub fn for_user(sila_handle: String, sila_params: &SilaParams) -> (out: Result<
        HeaderMessage,
        SerializationError,
    >)
        ensures
            match out {
                Ok(message) => message.is_call_of(sila_handle@, sila_params.app_handle@),
                Err(e) => e == SerializationError::ClockBeforeEpoch,
            },
    {
        match Header::generate() {
            Ok(header) => Ok(HeaderMessage::for_user_with_header(header, sila_handle, sila_params)),
            Err(e) => Err(e),
        }
    }

    /// The members of the request in JSON: `header`, then `message`.
    pub open spec fn json_members(self) -> Seq<Seq<char>> {
        member("header"@, self.header.json_text()) + string_member("message"@, self.message@)
    }

    /// The JSON text of the request, which is its canonical form.
    pub open spec fn json_text(self) -> Seq<char> {
        json_object(self.json_members())
    }

    /// Writes the request as JSON.
    pub fn to_json(&self) -> (out: Result<String, SerializationError>)
        ensures
            match out {
                Ok(text) => text@ == self.json_text(),
                Err(_) => false,
            },
    {
        let header = self.header.to_json()?;
        let mut writer = ObjectWriter::new();
        writer.member("header", header.as_str())?;
        writer.string("message", self.message.as_str())?;
        assert(writer.members() =~= self.json_members());
        Ok(writer.finish())
    }
}

/// A bare header request for a new call, not yet addressed: a fresh
/// reference, the present time, and no handles.
pub fn header_message() -> (out: Result<HeaderMessage, SerializationError>)
    ensures
        match out {
            Ok(message) => message.header.is_generated() && message.message@
                == header_message_kind(),
            Err(e) => e == SerializationError::ClockBeforeEpoch,
        },
{
    match Header::generate() {
        Ok(header) => Ok(HeaderMessage::with_header(header)),
        Err(e) => Err(e),
    }
}

} // verus!
