//! Message identifiers.
//!
//! An identifier is a 128-bit UUID. The library keeps it as the number; the
//! `uuid` crate draws fresh ones and converts between the number and its
//! text on the wire.

use vstd::prelude::*;

verus! {

/// The lower-case hexadecimal digit for a number below sixteen.
pub open spec fn hex_digit(nibble: nat) -> char
    recommends
        nibble < 16,
{
    if nibble < 10 {
        (nibble + 0x30) as char
    } else {
        (nibble - 10 + 0x61) as char
    }
}

/// A number as `count` lower-case hexadecimal digits, the most significant
/// first.
pub open spec fn hex_digits(value: nat, count: nat) -> Seq<char>
    decreases count,
{
    if count == 0 {
        Seq::empty()
    } else {
        hex_digits(value / 16, (count - 1) as nat).push(hex_digit(value % 16))
    }
}

/// The text of a UUID on the wire: its 32 hexadecimal digits in lower case,
/// in groups of 8, 4, 4, 4 and 12 with a hyphen between them.
pub open spec fn uuid_text(value: u128) -> Seq<char> {
    let digits = hex_digits(value as nat, 32);
    digits.subrange(0, 8) + seq!['-'] + digits.subrange(8, 12) + seq!['-'] + digits.subrange(
        12,
        16,
    ) + seq!['-'] + digits.subrange(16, 20) + seq!['-'] + digits.subrange(20, 32)
}

/// The UUID that `Uuid::parse_str` reads from a text, `None` where it rejects
/// the text.
pub uninterp spec fn uuid_parse(text: Seq<char>) -> Option<u128>;

/// Whether the version and variant bits of a UUID mark it as randomly drawn
/// (version 4 of the standard layout).
pub open spec fn is_random_uuid(value: u128) -> bool {
    (value >> 76u128) & 0xfu128 == 4 && (value >> 62u128) & 0x3u128 == 2
}

/// Whether the text written for a UUID is read back as that UUID.
pub open spec fn id_reads_back(value: u128) -> bool {
    uuid_parse(uuid_text(value)) == Some(value)
}

/// `Uuid::new_v4`: a random UUID. Only its version and variant bits are
/// fixed; the rest differs from call to call.
#[verifier::external_body]
fn random_uuid() -> (r: u128)
    ensures
        is_random_uuid(r),
{
    uuid::Uuid::new_v4().as_u128()
}

/// `Uuid::hyphenated`, written out: the hyphenated lower-case text of the
/// UUID with the given value. The crate documents that `parse_str` reads
/// every format it writes, so the text parses back to the same value.
#[verifier::external_body]
fn hyphenated_text(value: u128) -> (r: String)
    ensures
        r@ == uuid_text(value),
        uuid_parse(r@) == Some(value),
{
    uuid::Uuid::from_u128(value).hyphenated().to_string()
}

/// `Uuid::parse_str`: the value of the UUID that the text denotes.
#[verifier::external_body]
fn parse_uuid(text: &str) -> (r: Option<u128>)
    ensures
        r == uuid_parse(text@),
{
    match uuid::Uuid::parse_str(text) {
        Ok(id) => Some(id.as_u128()),
        Err(_) => None,
    }
}

/// Identifies one message; a reply names the identifier of its request.
#[derive(Debug, Clone, Copy, PartialEq, Eq, Structural)]
pub struct MessageId {
    /// The UUID as a 128-bit number, most significant byte first.
    pub value: u128,
}

impl View for MessageId {
    type V = u128;

    open spec fn view(&self) -> u128 {
        self.value
    }
}

impl MessageId {
    /// A fresh random identifier.
    pub fn random() -> (r: MessageId)
        ensures
            is_random_uuid(r@),
    {
        MessageId { value: random_uuid() }
    }

    /// The identifier with the given 128-bit value.
    pub fn from_u128(value: u128) -> (r: MessageId)
        ensures
            r@ == value,
    {
        MessageId { value }
    }

    /// The 128-bit value of the identifier.
    pub fn as_u128(&self) -> (r: u128)
        ensures
            r == self@,
    {
        self.value
    }

    /// The identifier in its wire form, which [`MessageId::parse_str`] reads
    /// back.
    pub fn to_string(&self) -> (r: String)
        ensures
            r@ == uuid_text(self@),
            id_reads_back(self@),
    {
        hyphenated_text(self.value)
    }

    /// Reads an identifier from text; `None` for text that denotes none.
    pub fn parse_str(text: &str) -> (r: Option<MessageId>)
        ensures
            match uuid_parse(text@) {
                Some(value) => r == Some(MessageId { value }),
                None => r is None,
            },
    {
        match parse_uuid(text) {
            Some(value) => Some(MessageId { value }),
            None => None,
        }
    }
}

} // verus!
