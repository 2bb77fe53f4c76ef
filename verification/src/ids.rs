//! Identifiers of workers and jobs: 128-bit UUID values.
use vstd::prelude::*;

verus! {

/// The nil identifier (`Uuid::nil()`), which user interfaces fill in later.
pub const NIL_ID: u128 = 0;

/// The lowercase hexadecimal digit for `n < 16`.
pub open spec fn hex_digit(n: int) -> char {
    if n < 10 {
        ('0' as int + n) as char
    } else {
        ('a' as int + n - 10) as char
    }
}

/// The `k`-th hexadecimal digit of `id`, counted from the most significant one.
pub open spec fn id_nibble(id: u128, k: int) -> int {
    ((id >> ((124 - 4 * k) as u128)) & 15u128) as int
}

/// Which digit of the identifier stands at text position `i` of the hyphenated form.
pub open spec fn nibble_at(i: int) -> int {
    if i < 8 {
        i
    } else if i < 13 {
        i - 1
    } else if i < 18 {
        i - 2
    } else if i < 23 {
        i - 3
    } else {
        i - 4
    }
}

/// The hyphenated lowercase text of an identifier, `xxxxxxxx-xxxx-xxxx-xxxx-xxxxxxxxxxxx`.
pub open spec fn hyphenated(id: u128) -> Seq<char> {
    Seq::new(
        36,
        |i: int|
            if i == 8 || i == 13 || i == 18 || i == 23 {
                '-'
            } else {
                hex_digit(id_nibble(id, nibble_at(i)))
            },
    )
}

/// Whether `id` has the version and variant bits of a random (version 4) UUID.
pub open spec fn is_random_id(id: u128) -> bool {
    &&& (id >> 76u128) & 15u128 == 4u128
    &&& (id >> 62u128) & 3u128 == 2u128
}

/// What `Uuid::parse_str` gives for a text: the identifier, or nothing when the text is
/// not a UUID in one of the accepted forms.
pub uninterp spec fn parsed_id(text: Seq<char>) -> Option<u128>;

/// `Uuid::new_v4`: a random identifier. Only its version and variant bits are known.
#[verifier::external_body]
pub(crate) fn random_id() -> (id: u128)
    ensures
        is_random_id(id),
{
    uuid::Uuid::new_v4().as_u128()
}

/// `Uuid::to_string` (the `Display` form, hyphenated lowercase hex). The text parses
/// back to the same identifier.
#[verifier::external_body]
pub(crate) fn uuid_text(id: u128) -> (s: String)
    ensures
        s@ == hyphenated(id),
        parsed_id(s@) == Some(id),
{
    uuid::Uuid::from_u128(id).to_string()
}

/// `Uuid::parse_str`, the identifier of a text or nothing.
#[verifier::external_body]
pub(crate) fn uuid_parse(text: &str) -> (r: Option<u128>)
    ensures
        r == parsed_id(text@),
{
    match uuid::Uuid::parse_str(text) {
        Ok(u) => Some(u.as_u128()),
        Err(_) => None,
    }
}

/// A fresh random identifier for a worker or a job.
pub fn new_id() -> (id: u128)
    ensures
        is_random_id(id),
{
    random_id()
}

/// The text of an identifier, as `Uuid`'s `Display` writes it.
pub fn id_to_string(id: u128) -> (s: String)
    ensures
        s@ == hyphenated(id),
        parsed_id(s@) == Some(id),
{
    uuid_text(id)
}

/// The identifier that a text denotes, if it is a UUID.
pub fn parse_id(text: &str) -> (r: Option<u128>)
    ensures
        r == parsed_id(text@),
{
    uuid_parse(text)
}

} // verus!
