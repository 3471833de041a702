//! Decimal text of integers, in both directions, and lower-casing.

use vstd::prelude::*;
use vstd::string::*;

verus! {

/// The character that writes the digit `d`, for `0 <= d <= 9`.
pub open spec fn digit_char(d: int) -> char {
    if d == 0 {
        '0'
    } else if d == 1 {
        '1'
    } else if d == 2 {
        '2'
    } else if d == 3 {
        '3'
    } else if d == 4 {
        '4'
    } else if d == 5 {
        '5'
    } else if d == 6 {
        '6'
    } else if d == 7 {
        '7'
    } else if d == 8 {
        '8'
    } else {
        '9'
    }
}

/// Decimal digits of a natural number, most significant first, without
/// leading zeros.
pub open spec fn nat_text(n: nat) -> Seq<char>
    decreases n,
{
    if n < 10 {
        seq![digit_char(n as int)]
    } else {
        nat_text(n / 10).push(digit_char((n % 10) as int))
    }
}

/// Decimal text of an integer: a minus sign for a negative one, then the
/// digits of its magnitude.
pub open spec fn int_text(n: int) -> Seq<char> {
    if n < 0 {
        seq!['-'] + nat_text((-n) as nat)
    } else {
        nat_text(n as nat)
    }
}

/// Whether `c` is one of the ten decimal digits.
pub open spec fn is_digit(c: char) -> bool {
    '0' <= c <= '9'
}

/// The number that the digit `c` stands for.
pub open spec fn digit_value(c: char) -> nat {
    (c as u32 - '0' as u32) as nat
}

/// Whether every character of `s` is a decimal digit.
pub open spec fn all_digits(s: Seq<char>) -> bool {
    forall|i: int| 0 <= i < s.len() ==> is_digit(#[trigger] s[i])
}

/// The number written by a sequence of digits; the empty sequence writes 0.
pub open spec fn digits_value(s: Seq<char>) -> nat
    decreases s.len(),
{
    if s.len() == 0 {
        0
    } else {
        digits_value(s.drop_last()) * 10 + digit_value(s.last())
    }
}

/// The integer that `s` writes in the grammar of the standard integer
/// parsers: an optional sign (`+`, or `-` where `signed` holds), then at least
/// one digit and nothing else. `None` for any other text.
pub open spec fn text_value(s: Seq<char>, signed: bool) -> Option<int> {
    let negative = signed && s.len() > 0 && s[0] == '-';
    let body = if s.len() > 0 && (s[0] == '+' || negative) {
        s.skip(1)
    } else {
        s
    };
    if body.len() > 0 && all_digits(body) {
        if negative {
            Some(-(digits_value(body) as int))
        } else {
            Some(digits_value(body) as int)
        }
    } else {
        None
    }
}

/// What parsing `s` as an unsigned 16-bit number gives.
pub open spec fn u16_of_text(s: Seq<char>) -> Option<u16> {
    match text_value(s, false) {
        Some(v) => if v <= u16::MAX {
            Some(v as u16)
        } else {
            None
        },
        None => None,
    }
}

/// What parsing `s` as a signed 64-bit number gives.
pub open spec fn i64_of_text(s: Seq<char>) -> Option<i64> {
    match text_value(s, true) {
        Some(v) => if i64::MIN <= v <= i64::MAX {
            Some(v as i64)
        } else {
            None
        },
        None => None,
    }
}

/// Whether every character of `s` is one of the letters `a` to `z`.
pub open spec fn all_lower_letters(s: Seq<char>) -> bool {
    forall|i: int| 0 <= i < s.len() ==> 'a' <= #[trigger] s[i] <= 'z'
}

/// The lowercase equivalent of a text, as Unicode defines it.
pub uninterp spec fn lowercase_text(s: Seq<char>) -> Seq<char>;

/// Lower-cases a text through `str::to_lowercase`.
///
/// Trusted: the result is a function of the text alone, and a text made of
/// the letters `a` to `z` only is its own lowercase equivalent.
#[verifier::external_body]
pub(crate) fn lowercase(s: &str) -> (lower: String)
    ensures
        lower@ == lowercase_text(s@),
        all_lower_letters(s@) ==> lower@ == s@,
{
    s.to_lowercase()
}

/// Whether the text `s` is exactly `literal`.
pub fn text_is(s: &str, literal: &str) -> (same: bool)
    ensures
        same == (s@ == literal@),
{
    String::from_str(s) == String::from_str(literal)
}

/// A longer digit sequence never writes a smaller number than its prefix.
pub proof fn lemma_digits_value_prefix(s: Seq<char>, k: int)
    requires
        0 <= k <= s.len(),
    ensures
        digits_value(s.take(k)) <= digits_value(s),
    decreases s.len() - k,
{
    if k == s.len() {
        assert(s.take(k) =~= s);
    } else {
        lemma_digits_value_prefix(s, k + 1);
        assert(s.take(k + 1).drop_last() =~= s.take(k));
    }
}

fn digit_str(d: u8) -> (s: &'static str)
    requires
        d <= 9,
    ensures
        s@ == seq![digit_char(d as int)],
{
    proof {
        reveal_strlit("0");
        reveal_strlit("1");
        reveal_strlit("2");
        reveal_strlit("3");
        reveal_strlit("4");
        reveal_strlit("5");
        reveal_strlit("6");
        reveal_strlit("7");
        reveal_strlit("8");
        reveal_strlit("9");
    }
    let s = if d == 0 {
        "0"
    } else if d == 1 {
        "1"
    } else if d == 2 {
        "2"
    } else if d == 3 {
        "3"
    } else if d == 4 {
        "4"
    } else if d == 5 {
        "5"
    } else if d == 6 {
        "6"
    } else if d == 7 {
        "7"
    } else if d == 8 {
        "8"
    } else {
        "9"
    };
    assert(s@ =~= seq![digit_char(d as int)]);
    s
}

/// Writes a natural number in decimal.
pub fn nat_decimal(n: u64) -> (text: String)
    ensures
        text@ == nat_text(n as nat),
    decreases n,
{
    if n < 10 {
        String::from_str(digit_str(n as u8))
    } else {
        let head = nat_decimal(n / 10);
        let text = head.concat(digit_str((n % 10) as u8));
        assert(text@ =~= nat_text(n as nat));
        text
    }
}

/// Writes an integer in decimal, as the standard formatter does.
pub fn decimal(n: i64) -> (text: String)
    ensures
        text@ == int_text(n as int),
{
    if n < 0 {
        let magnitude: u64 = (-(n + 1)) as u64 + 1;
        proof {
            reveal_strlit("-");
        }
        let text = String::from_str("-").concat(nat_decimal(magnitude).as_str());
        assert(text@ =~= int_text(n as int));
        text
    } else {
        nat_decimal(n as u64)
    }
}

/// Reads the digits of `s` from position `from` on and returns the number
/// they write, or `None` if there is none of them, if one is no digit, or if
/// the number exceeds `limit`.
fn parse_digits(s: &str, from: usize, limit: u64) -> (value: Option<u64>)
    requires
        from <= s@.len(),
        9 <= limit <= 0x8000_0000_0000_0000,
    ensures
        value == (if s@.skip(from as int).len() > 0 && all_digits(s@.skip(from as int))
            && digits_value(s@.skip(from as int)) <= limit {
            Some(digits_value(s@.skip(from as int)) as u64)
        } else {
            None::<u64>
        }),
{
    let len = s.unicode_len();
    let ghost body = s@.skip(from as int);
    if from >= len {
        return None;
    }
    let mut value: u64 = 0;
    let mut i: usize = from;
    while i < len
        invariant
            from <= i <= len,
            len == s@.len(),
            body == s@.skip(from as int),
            9 <= limit <= 0x8000_0000_0000_0000,
            all_digits(body.take(i - from)),
            value == digits_value(body.take(i - from)),
            value <= limit,
        decreases len - i,
    {
        let c = s.get_char(i);
        let ghost seen = body.take(i - from);
        let ghost next = body.take(i - from + 1);
        assert(body[i - from] == c);
        assert(next.drop_last() =~= seen);
        assert(next.last() == c);
        if !(c as u32 >= '0' as u32 && c as u32 <= '9' as u32) {
            assert(!is_digit(body[i - from]));
            return None;
        }
        let d: u64 = (c as u32 - '0' as u32) as u64;
        assert(d == digit_value(c));
        if value > (limit - d) / 10 {
            proof {
                assert(digits_value(next) > limit);
                lemma_digits_value_prefix(body, i - from + 1);
            }
            return None;
        }
        value = value * 10 + d;
        assert(all_digits(next)) by {
            assert forall|j: int| 0 <= j < next.len() implies is_digit(#[trigger] next[j]) by {
                if j < seen.len() {
                    assert(seen[j] == next[j]);
                }
            }
        }
        i = i + 1;
    }
    assert(body.take(i - from) =~= body);
    Some(value)
}

/// Parses an unsigned 16-bit number: an optional `+`, then digits. Blanks,
/// a `-`, an empty text or a number above 65535 give `None`.
pub fn parse_u16(s: &str) -> (value: Option<u16>)
    ensures
        value == u16_of_text(s@),
{
    let len = s.unicode_len();
    let from: usize = if len > 0 && s.get_char(0) == '+' {
        1
    } else {
        0
    };
    assert(s@.skip(0) =~= s@);
    match parse_digits(s, from, 65535) {
        Some(v) => Some(v as u16),
        None => None,
    }
}

/// Parses a signed 64-bit number: an optional `+` or `-`, then digits.
/// Blanks, an empty text or a number outside the type give `None`.
pub fn parse_i64(s: &str) -> (value: Option<i64>)
    ensures
        value == i64_of_text(s@),
{
    let len = s.unicode_len();
    let negative = len > 0 && s.get_char(0) == '-';
    let from: usize = if len > 0 && (s.get_char(0) == '+' || negative) {
        1
    } else {
        0
    };
    assert(s@.skip(0) =~= s@);
    if negative {
        match parse_digits(s, from, 0x8000_0000_0000_0000) {
            Some(v) => if v == 0x8000_0000_0000_0000 {
                Some(i64::MIN)
            } else {
                Some(-(v as i64))
            },
            None => None,
        }
    } else {
        match parse_digits(s, from, 0x7fff_ffff_ffff_ffff) {
            Some(v) => Some(v as i64),
            None => None,
        }
    }
}

} // verus!
