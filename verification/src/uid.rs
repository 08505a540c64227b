//! Identifiers of users, sessions, clients and games: 128-bit numbers, written
//! on the wire in the canonical hyphenated form.

use vstd::prelude::*;
use vstd::arithmetic::power::pow;

verus! {

/// The lower-case hexadecimal digit for a value from 0 to 15.
pub open spec fn hex_digit(n: int) -> char {
    if n == 0 {
        '0'
    } else if n == 1 {
        '1'
    } else if n == 2 {
        '2'
    } else if n == 3 {
        '3'
    } else if n == 4 {
        '4'
    } else if n == 5 {
        '5'
    } else if n == 6 {
        '6'
    } else if n == 7 {
        '7'
    } else if n == 8 {
        '8'
    } else if n == 9 {
        '9'
    } else if n == 10 {
        'a'
    } else if n == 11 {
        'b'
    } else if n == 12 {
        'c'
    } else if n == 13 {
        'd'
    } else if n == 14 {
        'e'
    } else {
        'f'
    }
}

/// The `k`-th of the 32 hexadecimal digits of `id`, the most significant
/// first.
pub open spec fn nibble(id: u128, k: int) -> int {
    (id as int / pow(16, (31 - k) as nat)) % 16
}

/// How many hyphens stand before position `p` of the canonical form.
pub open spec fn hyphens_before(p: int) -> int {
    if p < 8 {
        0
    } else if p < 13 {
        1
    } else if p < 18 {
        2
    } else if p < 23 {
        3
    } else {
        4
    }
}

/// The canonical text of an identifier: 32 lower-case hexadecimal digits in
/// groups of 8, 4, 4, 4 and 12, with a hyphen between groups.
pub open spec fn uid_text(id: u128) -> Seq<char> {
    Seq::new(
        36,
        |p: int|
            if p == 8 || p == 13 || p == 18 || p == 23 {
                '-'
            } else {
                hex_digit(nibble(id, p - hyphens_before(p)))
            },
    )
}

/// The identifier that a text stands for, if it stands for one. The accepted
/// forms are those of `uuid::Uuid::parse_str`.
pub uninterp spec fn uid_parse(text: Seq<char>) -> Option<u128>;

/// `uuid::Uuid::parse_str`: the identifier written in `text`, or `None` where
/// the text is not an identifier. The number is the identifier's 16 bytes read
/// most significant first. Which texts are accepted is left to the parser: the
/// contract only gives its answer a name.
#[verifier::external_body]
pub(crate) fn parse_uid(text: &str) -> (r: Option<u128>)
    ensures
        r == uid_parse(text@),
{
    match uuid::Uuid::parse_str(text) {
        Ok(id) => Some(id.as_u128()),
        Err(_) => None,
    }
}

/// `uuid::Uuid::to_string`: the identifier in hyphenated lower-case
/// hexadecimal, most significant digit first. The parser accepts every text
/// that comes from here, and reads the identifier back from it.
#[verifier::external_body]
pub(crate) fn uid_to_string(id: u128) -> (r: String)
    ensures
        r@ == uid_text(id),
        uid_parse(r@) == Some(id),
{
    uuid::Uuid::from_u128(id).to_string()
}

/// `uuid::Uuid::new_v4`: a fresh random identifier. Nothing is promised of
/// its value.
#[verifier::external_body]
pub(crate) fn fresh_uid() -> (r: u128) {
    uuid::Uuid::new_v4().as_u128()
}

} // verus!
