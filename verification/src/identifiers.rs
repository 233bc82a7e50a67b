//! UUIDs, held as the 128-bit integer that `uuid::Uuid::as_u128` gives, and their text
//! forms.

use vstd::prelude::*;
use vstd::arithmetic::div_mod::{lemma_div_denominator, lemma_fundamental_div_mod};
use vstd::arithmetic::power::{lemma_pow_positive, pow};

use crate::text::lower_chars;

verus! {

/// The value of a hexadecimal digit of either case, or `None` for any other character.
pub open spec fn hex_value(c: char) -> Option<int> {
    if '0' <= c && c <= '9' {
        Some(c as int - '0' as int)
    } else if 'a' <= c && c <= 'f' {
        Some(c as int - 'a' as int + 10)
    } else if 'A' <= c && c <= 'F' {
        Some(c as int - 'A' as int + 10)
    } else {
        None
    }
}

/// Whether every character of a text is a hexadecimal digit.
pub open spec fn all_hex(s: Seq<char>) -> bool {
    forall|i: int| 0 <= i < s.len() ==> (#[trigger] hex_value(s[i])) is Some
}

/// The number that a text of hexadecimal digits writes, most significant digit first.
pub open spec fn hex_number(s: Seq<char>) -> int
    decreases s.len(),
{
    if s.len() == 0 {
        0
    } else {
        hex_number(s.drop_last()) * 16 + hex_value(s.last())->0
    }
}

/// The UUID that 32 hexadecimal digits write, or `None` where the text is not that.
pub open spec fn simple_value(d: Seq<char>) -> Option<u128> {
    if d.len() == 32 && all_hex(d) {
        Some(hex_number(d) as u128)
    } else {
        None
    }
}

/// The UUID that a hyphenated text (8-4-4-4-12 digits) writes, or `None`.
pub open spec fn hyphenated_value(s: Seq<char>) -> Option<u128> {
    if s.len() == 36 && s[8] == '-' && s[13] == '-' && s[18] == '-' && s[23] == '-' {
        simple_value(
            s.subrange(0, 8) + s.subrange(9, 13) + s.subrange(14, 18) + s.subrange(19, 23)
                + s.subrange(24, 36),
        )
    } else {
        None
    }
}

/// What `uuid::Uuid::parse_str` makes of a text: 32 hexadecimal digits; the hyphenated
/// form; the hyphenated form in braces; or the hyphenated form after `urn:uuid:` in any
/// ASCII case. Digits may be of either case. Every other text is refused.
pub open spec fn uuid_parse(text: Seq<char>) -> Option<u128> {
    if text.len() == 32 {
        simple_value(text)
    } else if text.len() == 36 {
        hyphenated_value(text)
    } else if text.len() == 38 && text[0] == '{' && text[37] == '}' {
        hyphenated_value(text.subrange(1, 37))
    } else if text.len() == 45 && lower_chars(text.subrange(0, 9)) == "urn:uuid:"@ {
        hyphenated_value(text.subrange(9, 45))
    } else {
        None
    }
}

/// The lowercase hexadecimal digit for `n` in `0..16`.
pub open spec fn hex_digit(n: int) -> char {
    if n < 10 {
        ('0' as int + n) as char
    } else {
        ('a' as int + n - 10) as char
    }
}

/// The `k`-th of the 32 hexadecimal digits of `u`, most significant first.
pub open spec fn uuid_nibble(u: u128, k: int) -> int {
    (u as int / pow(16, (31 - k) as nat)) % 16
}

/// Whether position `i` of the hyphenated form holds a hyphen.
pub open spec fn hyphen_position(i: int) -> bool {
    i == 8 || i == 13 || i == 18 || i == 23
}

/// Which hexadecimal digit stands at position `i` of the hyphenated form.
pub open spec fn digit_index(i: int) -> int {
    if i < 8 {
        i
    } else if i < 13 {
        i - 1
    } else if i < 18 {
        i - 2
    } else if i < 23 {
        i - 3
    } else {
        i - 4
    }
}

/// The hyphenated lowercase form of a UUID: 8-4-4-4-12 hexadecimal digits.
pub open spec fn hyphenated(u: u128) -> Seq<char> {
    Seq::new(
        36,
        |i: int|
            if hyphen_position(i) {
                '-'
            } else {
                hex_digit(uuid_nibble(u, digit_index(i)))
            },
    )
}

/// The nil UUID, all 128 bits zero (`uuid::Uuid::nil`).
pub open spec fn nil_uuid() -> u128 {
    0
}

/// The 32 lowercase hexadecimal digits of a UUID, most significant first.
pub open spec fn simple_digits(u: u128) -> Seq<char> {
    Seq::new(32, |k: int| hex_digit(uuid_nibble(u, k)))
}

proof fn lemma_hex_digit_value(n: int)
    requires
        0 <= n < 16,
    ensures
        hex_value(hex_digit(n)) == Some(n),
{
}

proof fn lemma_nibble_range(u: u128, k: int)
    requires
        0 <= k < 32,
    ensures
        0 <= uuid_nibble(u, k) < 16,
{
    lemma_pow_positive(16, (31 - k) as nat);
}

/// The first `n` digits of a UUID write the UUID divided by `16^(32 - n)`.
proof fn lemma_digits_prefix(u: u128, n: nat)
    requires
        n <= 32,
    ensures
        hex_number(simple_digits(u).take(n as int)) == u as int / pow(16, (32 - n) as nat),
    decreases n,
{
    let d = simple_digits(u);
    if n == 0 {
        assert(d.take(0) =~= Seq::<char>::empty());
        assert(pow(16, 32) == 0x1_0000_0000_0000_0000_0000_0000_0000_0000int) by {
            reveal_with_fuel(pow, 33);
        }
        assert(u as int / pow(16, 32) == 0);
    } else {
        lemma_digits_prefix(u, (n - 1) as nat);
        let k = n - 1;
        assert(d.take(n as int).drop_last() =~= d.take(k as int));
        lemma_nibble_range(u, k as int);
        lemma_hex_digit_value(uuid_nibble(u, k as int));
        let m = (32 - n) as nat;
        lemma_pow_positive(16, m);
        assert(pow(16, (m + 1) as nat) == 16 * pow(16, m)) by {
            reveal(pow);
        }
        let q = u as int / pow(16, m);
        assert(u as int / pow(16, (m + 1) as nat) == q / 16) by {
            lemma_div_denominator(u as int, pow(16, m), 16);
        }
        lemma_fundamental_div_mod(q, 16);
    }
}

/// The hyphenated form of a UUID is read back as the same UUID.
pub proof fn lemma_hyphenated_parses(u: u128)
    ensures
        uuid_parse(hyphenated(u)) == Some(u),
{
    let h = hyphenated(u);
    let d = simple_digits(u);
    let joined = h.subrange(0, 8) + h.subrange(9, 13) + h.subrange(14, 18) + h.subrange(19, 23)
        + h.subrange(24, 36);
    assert(joined =~= d);
    assert forall|i: int| 0 <= i < d.len() implies (#[trigger] hex_value(d[i])) is Some by {
        lemma_nibble_range(u, i);
        lemma_hex_digit_value(uuid_nibble(u, i));
    }
    lemma_digits_prefix(u, 32);
    assert(d.take(32) =~= d);
    assert(pow(16, 0) == 1) by {
        reveal(pow);
    }
}

/// Calls `uuid::Uuid::parse_str` and hands back the UUID as an integer, or `None` where
/// the text is refused.
#[verifier::external_body]
pub(crate) fn parse_uuid(text: &str) -> (r: Option<u128>)
    ensures
        r == uuid_parse(text@),
{
    match uuid::Uuid::parse_str(text) {
        Ok(u) => Some(u.as_u128()),
        Err(_) => None,
    }
}

/// Calls `uuid::Uuid::hyphenated` and `to_string`: the 36-character lowercase hyphenated
/// form.
#[verifier::external_body]
pub(crate) fn uuid_hyphenated(u: u128) -> (r: String)
    ensures
        r@ == hyphenated(u),
{
    uuid::Uuid::from_u128(u).hyphenated().to_string()
}

} // verus!
