//! Capability tokens: 128-bit secrets, written and read as UUIDs.

use vstd::prelude::*;
use vstd::arithmetic::power::pow;

verus! {

/// The secret that authorises every follow-up action on one issue.
#[derive(Clone, Copy, Debug, PartialEq, Eq, Structural, Hash)]
pub struct Token {
    pub value: u128,
}

/// The 128-bit value that `uuid::Uuid::parse_str` reads from `text`, where it
/// accepts `text`.
pub uninterp spec fn uuid_parse(text: Seq<char>) -> Option<u128>;

/// The lower-case hexadecimal digit of `n`.
pub open spec fn hex_digit(n: int) -> char
    recommends
        0 <= n < 16,
{
    if n < 10 {
        ((n + 48) as u8) as char
    } else {
        ((n + 87) as u8) as char
    }
}

/// The hexadecimal digit of `value` at place `k` of its 32, the most
/// significant being place 0.
pub open spec fn hex_place(value: u128, k: int) -> int
    recommends
        0 <= k < 32,
{
    (value as int / pow(16, (31 - k) as nat)) % 16
}

/// A token in writing: its 32 hexadecimal digits in lower case, most
/// significant first, in groups of 8, 4, 4, 4 and 12 with a hyphen between
/// groups.
pub open spec fn token_text(value: u128) -> Seq<char> {
    Seq::new(
        36,
        |i: int|
            if i == 8 || i == 13 || i == 18 || i == 23 {
                '-'
            } else if i < 8 {
                hex_digit(hex_place(value, i))
            } else if i < 13 {
                hex_digit(hex_place(value, i - 1))
            } else if i < 18 {
                hex_digit(hex_place(value, i - 2))
            } else if i < 23 {
                hex_digit(hex_place(value, i - 3))
            } else {
                hex_digit(hex_place(value, i - 4))
            },
    )
}

/// `value` is a UUID of version 4, the kind that is drawn at random: of its
/// 32 hexadecimal digits the thirteenth is 4 and the seventeenth is 8, 9, a
/// or b. The other 122 bits are free.
pub open spec fn version_4(value: u128) -> bool {
    &&& hex_place(value, 12) == 4
    &&& 8 <= hex_place(value, 16) <= 11
}

/// The token that `text` spells, if it spells one.
pub open spec fn token_of(text: Seq<char>) -> Option<Token> {
    match uuid_parse(text) {
        Some(value) => Some(Token { value }),
        None => None,
    }
}

/// `uuid::Uuid::parse_str`, with the UUID handed back as its 128-bit value in
/// big-endian order. Whether a text is accepted, and the value read from it,
/// depend on the text alone; that is all the contract claims.
#[verifier::external_body]
fn parse_uuid(text: &str) -> (r: Option<u128>)
    ensures
        r == uuid_parse(text@),
{
    uuid::Uuid::parse_str(text).ok().map(|u| u.as_u128())
}

/// `uuid::Uuid::new_v4`, as a 128-bit value. The UUID is drawn at random but
/// for the six bits that `new_v4` sets to mark it as one of version 4; these
/// are all that the contract claims.
#[verifier::external_body]
fn random_uuid() -> (r: u128)
    ensures
        version_4(r),
{
    uuid::Uuid::new_v4().as_u128()
}

/// `Display` of `uuid::Uuid`, for the UUID with the big-endian value `value`:
/// the hyphenated lower-case form.
#[verifier::external_body]
fn uuid_text(value: u128) -> (r: String)
    ensures
        r@ == token_text(value),
{
    uuid::Uuid::from_u128(value).to_string()
}

impl Token {
    /// Reads a token from `text`.
    pub fn parse(text: &str) -> (r: Option<Token>)
        ensures
            r == token_of(text@),
    {
        match parse_uuid(text) {
            Some(value) => Some(Token { value }),
            None => None,
        }
    }

    /// Draws a new token at random: a UUID of version 4.
    pub fn fresh() -> (r: Token)
        ensures
            version_4(r.value),
    {
        Token { value: random_uuid() }
    }

    /// The token in writing.
    pub fn to_string(&self) -> (r: String)
        ensures
            r@ == token_text(self.value),
    {
        uuid_text(self.value)
    }
}

} // verus!
