//! Texts: numbers in decimal, prefixes, and what follows a prefix.

use vstd::prelude::*;
use vstd::std_specs::iter::IteratorSpec;

verus! {

/// The text held by an optional string.
pub open spec fn text_of(s: Option<String>) -> Option<Seq<char>> {
    match s {
        Some(t) => Some(t@),
        None => None,
    }
}

/// A copy of an optional text.
pub fn copy_text(text: &Option<String>) -> (r: Option<String>)
    ensures
        text_of(r) == text_of(*text),
{
    match text {
        Some(t) => Some(t.clone()),
        None => None,
    }
}

/// The character of a decimal digit.
pub open spec fn digit_char(d: nat) -> char {
    if d == 0 {
        '0'
    } else if d == 1 {
        '1'
    } else if d == 2 {
        '2'
    } else if d == 3 {
        '3'
    } else if d == 4 {
        '4'
    } else if d == 5 {
        '5'
    } else if d == 6 {
        '6'
    } else if d == 7 {
        '7'
    } else if d == 8 {
        '8'
    } else {
        '9'
    }
}

/// A number in decimal, without sign or leading zeros.
pub open spec fn decimal(n: nat) -> Seq<char>
    decreases n,
{
    if n < 10 {
        seq![digit_char(n)]
    } else {
        decimal(n / 10).push(digit_char(n % 10))
    }
}

fn digit_str(d: u64) -> (r: &'static str)
    requires
        d < 10,
    ensures
        r@ == seq![digit_char(d as nat)],
{
    proof {
        reveal_strlit("0");
        reveal_strlit("1");
        reveal_strlit("2");
        reveal_strlit("3");
        reveal_strlit("4");
        reveal_strlit("5");
        reveal_strlit("6");
        reveal_strlit("7");
        reveal_strlit("8");
        reveal_strlit("9");
    }
    let r = if d == 0 {
        "0"
    } else if d == 1 {
        "1"
    } else if d == 2 {
        "2"
    } else if d == 3 {
        "3"
    } else if d == 4 {
        "4"
    } else if d == 5 {
        "5"
    } else if d == 6 {
        "6"
    } else if d == 7 {
        "7"
    } else if d == 8 {
        "8"
    } else {
        "9"
    };
    assert(r@ =~= seq![digit_char(d as nat)]);
    r
}

/// A number written in decimal.
pub fn decimal_string(n: u64) -> (r: String)
    ensures
        r@ == decimal(n as nat),
    decreases n,
{
    if n < 10 {
        String::from_str(digit_str(n))
    } else {
        let mut s = decimal_string(n / 10);
        s.append(digit_str(n % 10));
        assert(s@ =~= decimal((n / 10) as nat).push(digit_char((n % 10) as nat)));
        s
    }
}

/// The characters of a text.
pub fn chars_of(s: &str) -> (r: Vec<char>)
    ensures
        r@ == s@,
{
    broadcast use vstd::string::axiom_spec_iter;

    let mut out: Vec<char> = Vec::new();
    for c in it: s.chars()
        invariant
            out@ == it.seq().take(it.index()),
            it.seq() == s@,
    {
        out.push(c);
    }
    assert(out@ =~= s@);
    out
}

/// Whether two texts are the same.
pub fn same_text(a: &str, b: &str) -> (r: bool)
    ensures
        r == (a@ == b@),
{
    let left = String::from_str(a);
    let right = String::from_str(b);
    left == right
}

/// Whether a text begins with another.
pub fn starts_with(s: &str, prefix: &str) -> (r: bool)
    ensures
        r == prefix@.is_prefix_of(s@),
{
    let text = chars_of(s);
    let head = chars_of(prefix);
    if head.len() > text.len() {
        return false;
    }
    let mut i: usize = 0;
    while i < head.len()
        invariant
            0 <= i <= head.len() <= text.len(),
            text@ == s@,
            head@ == prefix@,
            forall|k: int| 0 <= k < i ==> text[k] == head[k],
        decreases head.len() - i,
    {
        if text[i] != head[i] {
            assert(s@.subrange(0, prefix@.len() as int)[i as int] != prefix@[i as int]);
            return false;
        }
        i = i + 1;
    }
    assert(prefix@ =~= s@.subrange(0, prefix@.len() as int));
    true
}

/// What follows the first `n` characters of a text.
pub fn skip_chars(s: &str, n: usize) -> (r: String)
    requires
        n <= s@.len(),
    ensures
        r@ == s@.skip(n as int),
{
    let len = s.unicode_len();
    String::from_str(s.substring_char(n, len))
}

/// What follows a prefix of a text, if the text begins with it.
pub open spec fn after_prefix(s: Seq<char>, prefix: Seq<char>) -> Option<Seq<char>> {
    if prefix.is_prefix_of(s) {
        Some(s.skip(prefix.len() as int))
    } else {
        None
    }
}

/// What follows a prefix of a text, if the text begins with it.
pub fn strip_prefix(s: &str, prefix: &str) -> (r: Option<String>)
    ensures
        text_of(r) == after_prefix(s@, prefix@),
{
    if starts_with(s, prefix) {
        Some(skip_chars(s, prefix.unicode_len()))
    } else {
        None
    }
}

/// A text without the run of one character that it begins with.
pub open spec fn trimmed_start(s: Seq<char>, c: char) -> Seq<char>
    decreases s.len(),
{
    if s.len() > 0 && s[0] == c {
        trimmed_start(s.drop_first(), c)
    } else {
        s
    }
}

/// A text without the run of one character that it ends with.
pub open spec fn trimmed_end(s: Seq<char>, c: char) -> Seq<char>
    decreases s.len(),
{
    if s.len() > 0 && s[s.len() - 1] == c {
        trimmed_end(s.drop_last(), c)
    } else {
        s
    }
}

/// A text that begins with `n` times `c`, and not with more, is trimmed to
/// what follows them.
pub proof fn lemma_trimmed_start(s: Seq<char>, c: char, n: int)
    requires
        0 <= n <= s.len(),
        forall|k: int| 0 <= k < n ==> s[k] == c,
        n < s.len() ==> s[n] != c,
    ensures
        trimmed_start(s, c) == s.skip(n),
    decreases n,
{
    if n == 0 {
        assert(s.skip(0) =~= s);
    } else {
        let rest = s.drop_first();
        assert forall|k: int| 0 <= k < n - 1 implies rest[k] == c by {
            assert(rest[k] == s[k + 1]);
        }
        lemma_trimmed_start(rest, c, n - 1);
        assert(rest.skip(n - 1) =~= s.skip(n));
    }
}

/// A text that ends with `s.len() - n` times `c`, and not with more, is
/// trimmed to its first `n` characters.
pub proof fn lemma_trimmed_end(s: Seq<char>, c: char, n: int)
    requires
        0 <= n <= s.len(),
        forall|k: int| n <= k < s.len() ==> s[k] == c,
        n > 0 ==> s[n - 1] != c,
    ensures
        trimmed_end(s, c) == s.take(n),
    decreases s.len() - n,
{
    if n == s.len() {
        assert(s.take(n) =~= s);
    } else {
        let rest = s.drop_last();
        lemma_trimmed_end(rest, c, n);
        assert(rest.take(n) =~= s.take(n));
    }
}

/// A text without the run of one character that it begins with.
pub fn trim_start(s: &str, c: char) -> (r: String)
    ensures
        r@ == trimmed_start(s@, c),
{
    let text = chars_of(s);
    let mut n: usize = 0;
    while n < text.len() && text[n] == c
        invariant
            0 <= n <= text.len(),
            text@ == s@,
            forall|k: int| 0 <= k < n ==> text[k] == c,
        decreases text.len() - n,
    {
        n = n + 1;
    }
    proof {
        lemma_trimmed_start(s@, c, n as int);
    }
    skip_chars(s, n)
}

/// A text without the run of one character that it ends with.
pub fn trim_end(s: &str, c: char) -> (r: String)
    ensures
        r@ == trimmed_end(s@, c),
{
    let text = chars_of(s);
    let mut n: usize = text.len();
    while n > 0 && text[n - 1] == c
        invariant
            0 <= n <= text.len(),
            text@ == s@,
            forall|k: int| n <= k < text.len() ==> text[k] == c,
        decreases n,
    {
        n = n - 1;
    }
    proof {
        lemma_trimmed_end(s@, c, n as int);
    }
    String::from_str(s.substring_char(0, n))
}

/// Whether a text holds another somewhere.
pub open spec fn holds_text(s: Seq<char>, needle: Seq<char>) -> bool {
    exists|i: int| 0 <= i && i + needle.len() <= s.len() && #[trigger] s.subrange(
        i,
        i + needle.len(),
    ) == needle
}

/// Whether a text holds another at a place.
fn holds_at(text: &Vec<char>, needle: &Vec<char>, at: usize) -> (r: bool)
    requires
        at + needle.len() <= text.len(),
    ensures
        r == (text@.subrange(at as int, at + needle.len()) == needle@),
{
    let mut k: usize = 0;
    while k < needle.len()
        invariant
            0 <= k <= needle.len(),
            at + needle.len() <= text.len(),
            forall|j: int| 0 <= j < k ==> text[at + j] == needle[j],
        decreases needle.len() - k,
    {
        if text[at + k] != needle[k] {
            assert(text@.subrange(at as int, at + needle.len())[k as int] != needle@[k as int]);
            return false;
        }
        k = k + 1;
    }
    assert(text@.subrange(at as int, at + needle.len()) =~= needle@);
    true
}

/// Whether a text holds another somewhere.
pub fn contains_text(s: &str, needle: &str) -> (r: bool)
    ensures
        r == holds_text(s@, needle@),
{
    let text = chars_of(s);
    let sought = chars_of(needle);
    if sought.len() > text.len() {
        return false;
    }
    let mut i: usize = 0;
    while i < text.len() && sought.len() <= text.len() - i
        invariant
            0 <= i <= text.len(),
            sought.len() <= text.len(),
            text@ == s@,
            sought@ == needle@,
            forall|j: int|
                0 <= j < i ==> #[trigger] text@.subrange(j, j + sought.len()) != sought@,
        decreases text.len() - i,
    {
        if holds_at(&text, &sought, i) {
            return true;
        }
        i = i + 1;
    }
    if i == text.len() && sought.len() == 0 {
        assert(text@.subrange(i as int, i + sought.len()) =~= sought@);
        return true;
    }
    false
}

/// The number that a run of decimal digits stands for.
pub open spec fn digits_value(d: Seq<char>) -> nat
    decreases d.len(),
{
    if d.len() == 0 {
        0
    } else {
        10 * digits_value(d.drop_last()) + (d.last() as nat - '0' as nat) as nat
    }
}

/// Whether a text is a number from 0 to 65535 in decimal: digits, with or
/// without a plus sign before them, and nothing else.
pub open spec fn is_u16_text(s: Seq<char>) -> bool {
    let digits = if s.len() > 0 && s[0] == '+' {
        s.drop_first()
    } else {
        s
    };
    &&& digits.len() > 0
    &&& forall|i: int| 0 <= i < digits.len() ==> '0' <= #[trigger] digits[i] <= '9'
    &&& digits_value(digits) <= 65535
}

/// The number that a text stands for, if it is a number from 0 to 65535 in
/// decimal.
pub open spec fn u16_of_text(s: Seq<char>) -> Option<u16> {
    if is_u16_text(s) {
        Some(
            digits_value(
                if s[0] == '+' {
                    s.drop_first()
                } else {
                    s
                },
            ) as u16,
        )
    } else {
        None
    }
}

/// Why a text is no number.
#[verifier::external_type_specification]
#[verifier::external_body]
pub struct ExParseIntError(core::num::ParseIntError);

/// `str::parse::<u16>`: the 16-bit number that a text stands for. The text
/// is an optional plus sign followed by decimal digits, and the digits stay
/// in range; any other text is an error.
#[verifier::external_body]
pub(crate) fn parse_u16(s: &str) -> (r: Result<u16, core::num::ParseIntError>)
    ensures
        match r {
            Ok(v) => u16_of_text(s@) == Some(v),
            Err(_) => u16_of_text(s@) is None,
        },
{
    s.parse::<u16>()
}

} // verus!
