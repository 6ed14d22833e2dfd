//! The JSON text of a request body, written exactly once.
//!
//! A request body is an object whose members stand in a fixed order, without
//! any space between them. Strings are escaped by the JSON encoder itself;
//! the framing (braces, commas, member order, which members are left out) is
//! laid down here.

use vstd::prelude::*;
use vstd::string::StringExecFns;

use crate::error::SerializationError;

verus! {

/// The JSON string literal that stands for a text: the text between double
/// quotes, with the escapes that `serde_json` writes.
pub uninterp spec fn json_string_literal(text: Seq<char>) -> Seq<char>;

/// The decimal digit of a value below 10.
pub open spec fn decimal_digit(value: int) -> char {
    if value == 0 {
        '0'
    } else if value == 1 {
        '1'
    } else if value == 2 {
        '2'
    } else if value == 3 {
        '3'
    } else if value == 4 {
        '4'
    } else if value == 5 {
        '5'
    } else if value == 6 {
        '6'
    } else if value == 7 {
        '7'
    } else if value == 8 {
        '8'
    } else {
        '9'
    }
}

/// A natural number in decimal, without leading zeros.
pub open spec fn decimal_digits(value: nat) -> Seq<char>
    decreases value,
{
    if value < 10 {
        seq![decimal_digit(value as int)]
    } else {
        decimal_digits(value / 10).push(decimal_digit((value % 10) as int))
    }
}

/// An integer as JSON writes it: a minus sign where it is negative, then its
/// magnitude in decimal.
pub open spec fn json_integer(value: int) -> Seq<char> {
    if value < 0 {
        seq!['-'] + decimal_digits((-value) as nat)
    } else {
        decimal_digits(value as nat)
    }
}

/// `true` or `false`.
pub open spec fn json_bool(value: bool) -> Seq<char> {
    if value {
        seq!['t', 'r', 'u', 'e']
    } else {
        seq!['f', 'a', 'l', 's', 'e']
    }
}

/// `null`.
pub open spec fn json_null() -> Seq<char> {
    seq!['n', 'u', 'l', 'l']
}

/// A string that may be absent: its literal, or `null`.
pub open spec fn json_nullable_string(value: Option<Seq<char>>) -> Seq<char> {
    match value {
        Some(text) => json_string_literal(text),
        None => json_null(),
    }
}

/// One member of an object: the name as a string literal, a colon, the value.
pub open spec fn json_member(name: Seq<char>, value: Seq<char>) -> Seq<char> {
    json_string_literal(name) + seq![':'] + value
}

/// The parts in order, with a comma between each two.
pub open spec fn comma_separated(parts: Seq<Seq<char>>) -> Seq<char>
    decreases parts.len(),
{
    if parts.len() == 0 {
        Seq::empty()
    } else if parts.len() == 1 {
        parts[0]
    } else {
        comma_separated(parts.drop_last()) + seq![','] + parts.last()
    }
}

/// An object with the given members, in the given order.
pub open spec fn json_object(members: Seq<Seq<char>>) -> Seq<char> {
    seq!['{'] + comma_separated(members) + seq!['}']
}

/// An array with the given items, in the given order.
pub open spec fn json_array(items: Seq<Seq<char>>) -> Seq<char> {
    seq!['['] + comma_separated(items) + seq![']']
}

/// An array of strings.
pub open spec fn json_string_array(items: Seq<Seq<char>>) -> Seq<char> {
    json_array(Seq::new(items.len(), |i: int| json_string_literal(items[i])))
}

/// The member list of one member whose value is already JSON text.
pub open spec fn member(name: Seq<char>, value: Seq<char>) -> Seq<Seq<char>> {
    seq![json_member(name, value)]
}

/// The member list of one string member.
pub open spec fn string_member(name: Seq<char>, value: Seq<char>) -> Seq<Seq<char>> {
    member(name, json_string_literal(value))
}

/// The member list of one integer member.
pub open spec fn integer_member(name: Seq<char>, value: int) -> Seq<Seq<char>> {
    member(name, json_integer(value))
}

/// The member list of one boolean member.
pub open spec fn bool_member(name: Seq<char>, value: bool) -> Seq<Seq<char>> {
    member(name, json_bool(value))
}

/// The member list of one member that is a string or `null`.
pub open spec fn nullable_string_member(name: Seq<char>, value: Option<Seq<char>>) -> Seq<
    Seq<char>,
> {
    member(name, json_nullable_string(value))
}

/// The member list of a string member that is left out where there is no
/// string.
pub open spec fn optional_string_member(name: Seq<char>, value: Option<Seq<char>>) -> Seq<
    Seq<char>,
> {
    match value {
        Some(text) => string_member(name, text),
        None => Seq::empty(),
    }
}

/// The member list of an integer member that is left out where there is no
/// integer.
pub open spec fn optional_integer_member(name: Seq<char>, value: Option<int>) -> Seq<Seq<char>> {
    match value {
        Some(number) => integer_member(name, number),
        None => Seq::empty(),
    }
}

/// The member list of a boolean member that is left out where there is no
/// boolean.
pub open spec fn optional_bool_member(name: Seq<char>, value: Option<bool>) -> Seq<Seq<char>> {
    match value {
        Some(flag) => bool_member(name, flag),
        None => Seq::empty(),
    }
}

/// The member list of a member that is an array of strings and is left out
/// where there is no array.
pub open spec fn optional_string_array_member(
    name: Seq<char>,
    value: Option<Seq<Seq<char>>>,
) -> Seq<Seq<char>> {
    match value {
        Some(items) => member(name, json_string_array(items)),
        None => Seq::empty(),
    }
}

/// The integer that may be absent, as a mathematical integer.
pub open spec fn int_of(value: Option<i64>) -> Option<int> {
    match value {
        Some(number) => Some(number as int),
        None => None,
    }
}

/// The 32-bit integer that may be absent, as a mathematical integer.
pub open spec fn int_of_i32(value: Option<i32>) -> Option<int> {
    match value {
        Some(number) => Some(number as int),
        None => None,
    }
}

/// The error type of `serde_json`.
#[verifier::external_type_specification]
#[verifier::external_body]
pub struct ExSerdeJsonError(serde_json::Error);

/// `serde_json::to_string` on a string slice: the JSON string literal of the
/// text. The encoder does not fail on a string, and what it writes depends
/// on the text alone.
#[verifier::external_body]
fn serde_json_string(text: &str) -> (out: Result<String, serde_json::Error>)
    ensures
        match out {
            Ok(literal) => literal@ == json_string_literal(text@),
            Err(_) => false,
        },
{
    serde_json::to_string(text)
}

/// Writes a text as a JSON string literal.
pub fn string_literal(text: &str) -> (out: Result<String, SerializationError>)
    ensures
        match out {
            Ok(literal) => literal@ == json_string_literal(text@),
            Err(_) => false,
        },
{
    match serde_json_string(text) {
        Ok(literal) => Ok(literal),
        Err(_) => Err(SerializationError::Encoder),
    }
}

/// The one-character text of a decimal digit.
fn digit_text(value: u8) -> (text: &'static str)
    requires
        value < 10,
    ensures
        text@ == seq![decimal_digit(value as int)],
{
    proof {
        reveal_strlit("0");
        reveal_strlit("1");
        reveal_strlit("2");
        reveal_strlit("3");
        reveal_strlit("4");
        reveal_strlit("5");
        reveal_strlit("6");
        reveal_strlit("7");
        reveal_strlit("8");
        reveal_strlit("9");
    }
    let text = if value == 0 {
        "0"
    } else if value == 1 {
        "1"
    } else if value == 2 {
        "2"
    } else if value == 3 {
        "3"
    } else if value == 4 {
        "4"
    } else if value == 5 {
        "5"
    } else if value == 6 {
        "6"
    } else if value == 7 {
        "7"
    } else if value == 8 {
        "8"
    } else {
        "9"
    };
    assert(text@ =~= seq![decimal_digit(value as int)]);
    text
}

/// Appends a natural number in decimal.
fn append_decimal(out: &mut String, value: u64)
    ensures
        final(out)@ == old(out)@ + decimal_digits(value as nat),
    decreases value,
{
    if value >= 10 {
        append_decimal(out, value / 10);
    }
    out.append(digit_text((value % 10) as u8));
    assert(final(out)@ =~= old(out)@ + decimal_digits(value as nat)) by {
        if value >= 10 {
            assert(decimal_digits(value as nat) == decimal_digits((value / 10) as nat).push(
                decimal_digit((value % 10) as int),
            ));
        }
    }
}

/// Writes an unsigned integer as JSON does.
pub fn integer_text_of_u64(value: u64) -> (text: String)
    ensures
        text@ == json_integer(value as int),
{
    let mut text = String::new();
    append_decimal(&mut text, value);
    assert(text@ =~= json_integer(value as int));
    text
}

/// Writes a signed integer as JSON does.
pub fn integer_text(value: i64) -> (text: String)
    ensures
        text@ == json_integer(value as int),
{
    if value >= 0 {
        integer_text_of_u64(value as u64)
    } else {
        proof {
            reveal_strlit("-");
        }
        let mut text = String::from_str("-");
        let magnitude: u64 = ((-(value + 1)) as u64) + 1;
        append_decimal(&mut text, magnitude);
        assert(text@ =~= json_integer(value as int));
        text
    }
}

/// Writes `true` or `false`.
pub fn bool_text(value: bool) -> (text: &'static str)
    ensures
        text@ == json_bool(value),
{
    proof {
        reveal_strlit("true");
        reveal_strlit("false");
    }
    let text = if value {
        "true"
    } else {
        "false"
    };
    assert(text@ =~= json_bool(value));
    text
}

/// Appending one more part to a comma-separated list.
pub proof fn lemma_comma_separated_push(parts: Seq<Seq<char>>, part: Seq<char>)
    ensures
        comma_separated(parts.push(part)) == if parts.len() == 0 {
            part
        } else {
            comma_separated(parts) + seq![','] + part
        },
{
    let pushed = parts.push(part);
    assert(pushed.drop_last() =~= parts);
    assert(pushed.last() == part);
    if parts.len() == 0 {
        assert(pushed[0] == part);
    }
}

/// Writes a JSON array of strings.
pub fn string_array_text(items: &Vec<String>) -> (out: Result<String, SerializationError>)
    ensures
        match out {
            Ok(text) => text@ == json_string_array(items.deep_view()),
            Err(_) => false,
        },
{
    proof {
        reveal_strlit("[");
        reveal_strlit("]");
        reveal_strlit(",");
    }
    let ghost literals = Seq::new(
        items.deep_view().len(),
        |i: int| json_string_literal(items.deep_view()[i]),
    );
    let mut text = String::from_str("[");
    let mut i: usize = 0;
    while i < items.len()
        invariant
            i <= items.len(),
            literals.len() == items.len(),
            forall|j: int| 0 <= j < items.len() ==> literals[j] == json_string_literal(items[j]@),
            text@ == seq!['['] + comma_separated(literals.take(i as int)),
            ","@ == seq![','],
        decreases items.len() - i,
    {
        let literal = string_literal(items[i].as_str())?;
        if i > 0 {
            text.append(",");
        }
        text.append(literal.as_str());
        proof {
            lemma_comma_separated_push(literals.take(i as int), literals[i as int]);
            assert(literals.take(i as int).push(literals[i as int]) =~= literals.take(i + 1));
        }
        i += 1;
    }
    text.append("]");
    assert(literals.take(items.len() as int) =~= literals);
    Ok(text)
}

/// Writes the members of one JSON object, one after the other.
pub struct ObjectWriter {
    text: String,
    members: Ghost<Seq<Seq<char>>>,
    empty: bool,
}

impl ObjectWriter {
    /// The members written so far, in order.
    pub closed spec fn members(&self) -> Seq<Seq<char>> {
        self.members@
    }

    /// The text so far is an opening brace and the members written so far.
    pub closed spec fn well_formed(&self) -> bool {
        &&& self.text@ == seq!['{'] + comma_separated(self.members@)
        &&& self.empty <==> self.members@.len() == 0
    }

    /// Opens an object.
    pub fn new() -> (writer: ObjectWriter)
        ensures
            writer.well_formed(),
            writer.members() == Seq::<Seq<char>>::empty(),
    {
        proof {
            reveal_strlit("{");
        }
        let writer = ObjectWriter {
            text: String::from_str("{"),
            members: Ghost(Seq::empty()),
            empty: true,
        };
        assert(writer.text@ =~= seq!['{'] + comma_separated(writer.members@));
        writer
    }

    /// Writes a member whose value is already JSON text.
    pub fn member(&mut self, name: &str, value: &str) -> (out: Result<(), SerializationError>)
        requires
            old(self).well_formed(),
        ensures
            out is Ok,
            final(self).well_formed(),
            final(self).members() == old(self).members() + member(name@, value@),
    {
        proof {
            reveal_strlit(",");
            reveal_strlit(":");
        }
        let key = string_literal(name)?;
        if !self.empty {
            self.text.append(",");
        }
        self.text.append(key.as_str());
        self.text.append(":");
        self.text.append(value);
        proof {
            lemma_comma_separated_push(self.members@, json_member(name@, value@));
            assert(self.members@ + member(name@, value@) =~= self.members@.push(
                json_member(name@, value@),
            ));
            self.members@ = self.members@ + member(name@, value@);
        }
        self.empty = false;
        assert(self.text@ =~= seq!['{'] + comma_separated(self.members@));
        Ok(())
    }

    /// Writes a string member.
    pub fn string(&mut self, name: &str, value: &str) -> (out: Result<(), SerializationError>)
        requires
            old(self).well_formed(),
        ensures
            out is Ok,
            final(self).well_formed(),
            final(self).members() == old(self).members() + string_member(name@, value@),
    {
        let literal = string_literal(value)?;
        self.member(name, literal.as_str())
    }

    /// Writes an unsigned integer member.
    pub fn unsigned(&mut self, name: &str, value: u64) -> (out: Result<(), SerializationError>)
        requires
            old(self).well_formed(),
        ensures
            out is Ok,
            final(self).well_formed(),
            final(self).members() == old(self).members() + integer_member(name@, value as int),
    {
        let number = integer_text_of_u64(value);
        self.member(name, number.as_str())
    }

    /// Writes a signed integer member.
    pub fn integer(&mut self, name: &str, value: i64) -> (out: Result<(), SerializationError>)
        requires
            old(self).well_formed(),
        ensures
            out is Ok,
            final(self).well_formed(),
            final(self).members() == old(self).members() + integer_member(name@, value as int),
    {
        let number = integer_text(value);
        self.member(name, number.as_str())
    }

    /// Writes a boolean member.
    pub fn boolean(&mut self, name: &str, value: bool) -> (out: Result<(), SerializationError>)
        requires
            old(self).well_formed(),
        ensures
            out is Ok,
            final(self).well_formed(),
            final(self).members() == old(self).members() + bool_member(name@, value),
    {
        self.member(name, bool_text(value))
    }

    /// Writes a member that is a string or, where there is none, `null`.
    pub fn nullable_string(&mut self, name: &str, value: &Option<String>) -> (out: Result<
        (),
        SerializationError,
    >)
        requires
            old(self).well_formed(),
        ensures
            out is Ok,
            final(self).well_formed(),
            final(self).members() == old(self).members() + nullable_string_member(
                name@,
                value.deep_view(),
            ),
    {
        match value {
            Some(text) => self.string(name, text.as_str()),
            None => {
                proof {
                    reveal_strlit("null");
                    assert("null"@ =~= json_null());
                }
                self.member(name, "null")
            },
        }
    }

    /// Writes a string member, or nothing where there is no string.
    pub fn optional_string(&mut self, name: &str, value: &Option<String>) -> (out: Result<
        (),
        SerializationError,
    >)
        requires
            old(self).well_formed(),
        ensures
            out is Ok,
            final(self).well_formed(),
            final(self).members() == old(self).members() + optional_string_member(
                name@,
                value.deep_view(),
            ),
    {
        match value {
            Some(text) => self.string(name, text.as_str()),
            None => {
                assert(self.members() + Seq::<Seq<char>>::empty() =~= self.members());
                Ok(())
            },
        }
    }

    /// Writes an integer member, or nothing where there is no integer.
    pub fn optional_integer(&mut self, name: &str, value: Option<i64>) -> (out: Result<
        (),
        SerializationError,
    >)
        requires
            old(self).well_formed(),
        ensures
            out is Ok,
            final(self).well_formed(),
            final(self).members() == old(self).members() + optional_integer_member(
                name@,
                int_of(value),
            ),
    {
        match value {
            Some(number) => self.integer(name, number),
            None => {
                assert(self.members() + Seq::<Seq<char>>::empty() =~= self.members());
                Ok(())
            },
        }
    }

    /// Writes a 32-bit integer member, or nothing where there is no integer.
    pub fn optional_i32(&mut self, name: &str, value: Option<i32>) -> (out: Result<
        (),
        SerializationError,
    >)
        requires
            old(self).well_formed(),
        ensures
            out is Ok,
            final(self).well_formed(),
            final(self).members() == old(self).members() + optional_integer_member(
                name@,
                int_of_i32(value),
            ),
    {
        match value {
            Some(number) => self.integer(name, number as i64),
            None => {
                assert(self.members() + Seq::<Seq<char>>::empty() =~= self.members());
                Ok(())
            },
        }
    }

    /// Writes a boolean member, or nothing where there is no boolean.
    pub fn optional_boolean(&mut self, name: &str, value: Option<bool>) -> (out: Result<
        (),
        SerializationError,
    >)
        requires
            old(self).well_formed(),
        ensures
            out is Ok,
            final(self).well_formed(),
            final(self).members() == old(self).members() + optional_bool_member(name@, value),
    {
        match value {
            Some(flag) => self.boolean(name, flag),
            None => {
                assert(self.members() + Seq::<Seq<char>>::empty() =~= self.members());
                Ok(())
            },
        }
    }

    /// Writes a member that is an array of strings, or nothing where there
    /// is no array.
    pub fn optional_string_array(&mut self, name: &str, value: &Option<Vec<String>>) -> (out:
        Result<(), SerializationError>)
        requires
            old(self).well_formed(),
        ensures
            out is Ok,
            final(self).well_formed(),
            final(self).members() == old(self).members() + optional_string_array_member(
                name@,
                value.deep_view(),
            ),
    {
        match value {
            Some(items) => {
                let array = string_array_text(items)?;
                self.member(name, array.as_str())
            },
            None => {
                assert(self.members() + Seq::<Seq<char>>::empty() =~= self.members());
                Ok(())
            },
        }
    }

    /// Closes the object.
    pub fn finish(self) -> (text: String)
        requires
            self.well_formed(),
        ensures
            text@ == json_object(self.members()),
    {
        proof {
            reveal_strlit("}");
        }
        let mut text = self.text;
        text.append("}");
        text
    }
}

} // verus!
