//! Identifiers: 128-bit values, written as hyphenated lower-case hex.
use vstd::arithmetic::power::pow;
use vstd::prelude::*;

verus! {

/// The character for a hex digit's value: `0` to `9`, then `a` to `f`.
pub open spec fn hex_digit(n: int) -> char
    recommends
        0 <= n < 16,
{
    if n < 10 {
        (0x30 + n) as char
    } else {
        (0x57 + n) as char
    }
}

/// The `k`-th hex digit of `id`, counted from the left of its 32 digits.
pub open spec fn nibble(id: u128, k: int) -> int
    recommends
        0 <= k < 32,
{
    (id as int / pow(16, (31 - k) as nat)) % 16
}

/// How many hyphens stand before place `i` of a hyphenated identifier.
pub open spec fn hyphens_before(i: int) -> int {
    if i < 8 {
        0
    } else if i < 13 {
        1
    } else if i < 18 {
        2
    } else if i < 23 {
        3
    } else {
        4
    }
}

/// An identifier as text: its 32 lower-case hex digits in groups of 8, 4, 4,
/// 4 and 12, with a hyphen between two groups.
pub open spec fn hyphenated(id: u128) -> Seq<char> {
    Seq::new(
        36,
        |i: int|
            if i == 8 || i == 13 || i == 18 || i == 23 {
                '-'
            } else {
                hex_digit(nibble(id, i - hyphens_before(i)))
            },
    )
}

/// Whether `id` is marked as a random identifier: its version digit is 4 and
/// the two top bits of its variant digit are 1 and 0.
pub open spec fn is_random(id: u128) -> bool {
    nibble(id, 12) == 4 && 8 <= nibble(id, 16) <= 11
}

/// The sixteen bytes of an identifier, the most significant first. This is
/// how an identifier is written into a document and looked for there.
pub open spec fn big_endian(id: u128) -> Seq<u8> {
    seq![
        ((id >> 120) & 0xff) as u8,
        ((id >> 112) & 0xff) as u8,
        ((id >> 104) & 0xff) as u8,
        ((id >> 96) & 0xff) as u8,
        ((id >> 88) & 0xff) as u8,
        ((id >> 80) & 0xff) as u8,
        ((id >> 72) & 0xff) as u8,
        ((id >> 64) & 0xff) as u8,
        ((id >> 56) & 0xff) as u8,
        ((id >> 48) & 0xff) as u8,
        ((id >> 40) & 0xff) as u8,
        ((id >> 32) & 0xff) as u8,
        ((id >> 24) & 0xff) as u8,
        ((id >> 16) & 0xff) as u8,
        ((id >> 8) & 0xff) as u8,
        (id & 0xff) as u8,
    ]
}

/// Two identifiers with the same bytes are the same identifier.
pub proof fn big_endian_is_one_to_one(a: u128, b: u128)
    requires
        big_endian(a) == big_endian(b),
    ensures
        a == b,
{
    assert((a >> 120) & 0xff < 256 && (b >> 120) & 0xff < 256) by (bit_vector);
    assert((a >> 112) & 0xff < 256 && (b >> 112) & 0xff < 256) by (bit_vector);
    assert((a >> 104) & 0xff < 256 && (b >> 104) & 0xff < 256) by (bit_vector);
    assert((a >> 96) & 0xff < 256 && (b >> 96) & 0xff < 256) by (bit_vector);
    assert((a >> 88) & 0xff < 256 && (b >> 88) & 0xff < 256) by (bit_vector);
    assert((a >> 80) & 0xff < 256 && (b >> 80) & 0xff < 256) by (bit_vector);
    assert((a >> 72) & 0xff < 256 && (b >> 72) & 0xff < 256) by (bit_vector);
    assert((a >> 64) & 0xff < 256 && (b >> 64) & 0xff < 256) by (bit_vector);
    assert((a >> 56) & 0xff < 256 && (b >> 56) & 0xff < 256) by (bit_vector);
    assert((a >> 48) & 0xff < 256 && (b >> 48) & 0xff < 256) by (bit_vector);
    assert((a >> 40) & 0xff < 256 && (b >> 40) & 0xff < 256) by (bit_vector);
    assert((a >> 32) & 0xff < 256 && (b >> 32) & 0xff < 256) by (bit_vector);
    assert((a >> 24) & 0xff < 256 && (b >> 24) & 0xff < 256) by (bit_vector);
    assert((a >> 16) & 0xff < 256 && (b >> 16) & 0xff < 256) by (bit_vector);
    assert((a >> 8) & 0xff < 256 && (b >> 8) & 0xff < 256) by (bit_vector);
    assert(a & 0xff < 256 && b & 0xff < 256) by (bit_vector);
    assert(a == b) by (bit_vector)
        requires
            (a >> 120) & 0xff == (b >> 120) & 0xff,
            (a >> 112) & 0xff == (b >> 112) & 0xff,
            (a >> 104) & 0xff == (b >> 104) & 0xff,
            (a >> 96) & 0xff == (b >> 96) & 0xff,
            (a >> 88) & 0xff == (b >> 88) & 0xff,
            (a >> 80) & 0xff == (b >> 80) & 0xff,
            (a >> 72) & 0xff == (b >> 72) & 0xff,
            (a >> 64) & 0xff == (b >> 64) & 0xff,
            (a >> 56) & 0xff == (b >> 56) & 0xff,
            (a >> 48) & 0xff == (b >> 48) & 0xff,
            (a >> 40) & 0xff == (b >> 40) & 0xff,
            (a >> 32) & 0xff == (b >> 32) & 0xff,
            (a >> 24) & 0xff == (b >> 24) & 0xff,
            (a >> 16) & 0xff == (b >> 16) & 0xff,
            (a >> 8) & 0xff == (b >> 8) & 0xff,
            a & 0xff == b & 0xff,
    ;
}

/// What `uuid::Uuid::parse_str` makes of a text: the identifier it reads, or
/// `None` where it turns the text down.
pub uninterp spec fn uuid_parsed(text: Seq<char>) -> Option<u128>;

/// Whether `text` is the hyphenated form of `id` and reads back as `id`.
pub open spec fn names(text: Seq<char>, id: u128) -> bool {
    text == hyphenated(id) && uuid_parsed(text) == Some(id)
}

/// No character of a hyphenated identifier is a dot, a slash or a backslash.
pub proof fn hyphenated_is_plain(id: u128)
    ensures
        hyphenated(id).len() == 36,
        forall|i: int|
            0 <= i < 36 ==> {
                let c = #[trigger] hyphenated(id)[i];
                c != '.' && c != '/' && c != '\\'
            },
{
}

/// The error type of `uuid`'s parser.
#[verifier::external_type_specification]
#[verifier::external_body]
pub struct ExUuidError(uuid::Error);

/// A fresh random identifier, by `uuid::Uuid::new_v4`, as the number that
/// `as_u128` gives.
///
/// Nothing is claimed of which identifier comes back, only that it carries
/// the marks of a random one, which `new_v4` sets by mask. (`new_v4` does not
/// return where the operating system gives no random bytes.)
#[verifier::external_body]
pub(crate) fn new_v4() -> (id: u128)
    ensures
        is_random(id),
{
    uuid::Uuid::new_v4().as_u128()
}

/// Reads an identifier by `uuid::Uuid::parse_str`. The contract gives the
/// outcome the name `uuid_parsed` and says nothing of which texts are read.
#[verifier::external_body]
pub(crate) fn parse_str(input: &str) -> (parsed: Result<u128, uuid::Error>)
    ensures
        match parsed {
            Ok(id) => uuid_parsed(input@) == Some(id),
            Err(_) => uuid_parsed(input@) is None,
        },
{
    match uuid::Uuid::parse_str(input) {
        Ok(id) => Ok(id.as_u128()),
        Err(e) => Err(e),
    }
}

/// Writes an identifier by `uuid::Uuid`'s `Display`, on the value that
/// `from_u128` makes of `id`.
///
/// Claimed: the text is the hyphenated lower-case form, and `parse_str` reads
/// it back as `id` (its documentation promises to read every format that the
/// crate writes).
#[verifier::external_body]
pub(crate) fn to_text(id: u128) -> (text: String)
    ensures
        names(text@, id),
{
    uuid::Uuid::from_u128(id).to_string()
}

/// The bytes of an identifier, by `uuid::Uuid::as_bytes` on the value that
/// `from_u128` makes of `id`: sixteen bytes, the most significant first.
#[verifier::external_body]
pub(crate) fn to_bytes(id: u128) -> (bytes: Vec<u8>)
    ensures
        bytes@ == big_endian(id),
{
    uuid::Uuid::from_u128(id).as_bytes().to_vec()
}

} // verus!
