//! Parsing of brightness expressions: either a plain unsigned integer in
//! 0..=255, or a percentage `p%` with `p` in 0..=100, converted to a byte
//! by the truncating formula `255 * p / 100`.

use vstd::prelude::*;
use vstd::string::*;

verus! {

/// Error from the brightness expression parser.
#[derive(Debug, Clone, Copy, PartialEq, Eq)]
pub enum BrightnessError {
    /// The percentage form was malformed or named a value outside 0..=100.
    BadPercentage,
}

pub open spec fn is_digit(c: char) -> bool {
    '0' as int <= c as int && c as int <= '9' as int
}

pub open spec fn digit_value(c: char) -> int {
    c as int - '0' as int
}

pub open spec fn all_digits(s: Seq<char>) -> bool {
    forall|i: int| 0 <= i < s.len() ==> #[trigger] is_digit(s[i])
}

/// The number denoted by a string of decimal digits, most significant first.
pub open spec fn digits_value(s: Seq<char>) -> int
    decreases s.len(),
{
    if s.len() == 0 {
        0
    } else {
        digits_value(s.drop_last()) * 10 + digit_value(s.last())
    }
}

/// The body of an unsigned decimal literal: an optional leading `+` sign
/// stripped off.
pub open spec fn unsigned_body(s: Seq<char>) -> Seq<char> {
    if s.len() > 0 && s[0] == '+' {
        s.drop_first()
    } else {
        s
    }
}

/// Whether `s` is accepted as an unsigned decimal literal: an optional `+`
/// sign, then one or more decimal digits.
pub open spec fn is_unsigned_literal(s: Seq<char>) -> bool {
    unsigned_body(s).len() > 0 && all_digits(unsigned_body(s))
}

pub open spec fn unsigned_value(s: Seq<char>) -> int {
    digits_value(unsigned_body(s))
}

/// A brightness expression is in percentage form when its last character
/// is `%`.
pub open spec fn is_percentage_expr(s: Seq<char>) -> bool {
    s.len() > 0 && s.last() == '%'
}

/// Truncating conversion from a percentage in 0..=100 to a byte brightness.
pub open spec fn percent_to_byte(p: int) -> int {
    (255 * p) / 100
}

/// What the brightness parser accepts, and the byte each accepted string
/// denotes: a percentage `p%` with `p` in 0..=100 maps to `255*p/100`
/// truncated; a plain unsigned literal must lie in 0..=255 and maps to
/// itself; everything else is rejected.
pub open spec fn spec_convert_brightness(s: Seq<char>) -> Option<u8> {
    if is_percentage_expr(s) {
        if is_unsigned_literal(s.drop_last()) && unsigned_value(s.drop_last()) <= 100 {
            Some(percent_to_byte(unsigned_value(s.drop_last())) as u8)
        } else {
            None
        }
    } else {
        if is_unsigned_literal(s) && unsigned_value(s) <= 255 {
            Some(unsigned_value(s) as u8)
        } else {
            None
        }
    }
}

pub proof fn lemma_digits_value_nonneg(s: Seq<char>)
    requires
        all_digits(s),
    ensures
        digits_value(s) >= 0,
    decreases s.len(),
{
    if s.len() > 0 {
        assert forall|i: int| 0 <= i < s.drop_last().len() implies #[trigger] is_digit(
            s.drop_last()[i],
        ) by {
            assert(s.drop_last()[i] == s[i]);
        }
        lemma_digits_value_nonneg(s.drop_last());
        assert(is_digit(s.last()));
    }
}

/// A digit string is worth at least as much as any of its prefixes.
proof fn lemma_digits_value_prefix_le(s: Seq<char>, j: int)
    requires
        all_digits(s),
        0 <= j <= s.len(),
    ensures
        digits_value(s.subrange(0, j)) <= digits_value(s),
    decreases s.len() - j,
{
    if j == s.len() {
        assert(s.subrange(0, j) =~= s);
    } else {
        let p = s.subrange(0, j);
        let p1 = s.subrange(0, j + 1);
        assert(p1.drop_last() =~= p);
        assert(p1.last() == s[j]);
        assert forall|i: int| 0 <= i < p.len() implies #[trigger] is_digit(p[i]) by {
            assert(p[i] == s[i]);
        }
        lemma_digits_value_nonneg(p);
        assert(is_digit(s[j]));
        assert(digits_value(p1) == digits_value(p) * 10 + digit_value(s[j]));
        lemma_digits_value_prefix_le(s, j + 1);
    }
}

/// Parses `s` as an unsigned decimal literal, rejecting values above `max`.
fn parse_unsigned_bounded(s: &str, max: u8) -> (r: Option<u8>)
    ensures
        (match r {
            Some(v) => is_unsigned_literal(s@) && unsigned_value(s@) <= max && v as int
                == unsigned_value(s@),
            None => !(is_unsigned_literal(s@) && unsigned_value(s@) <= max),
        }),
{
    let n = s.unicode_len();
    let start: usize = if n > 0 && s.get_char(0) == '+' {
        1
    } else {
        0
    };
    proof {
        assert(unsigned_body(s@) =~= s@.subrange(start as int, n as int));
    }
    if start == n {
        return None;
    }
    let mut acc: u32 = 0;
    let mut j: usize = start;
    while j < n
        invariant
            start <= j <= n,
            n == s@.len(),
            unsigned_body(s@) =~= s@.subrange(start as int, n as int),
            forall|k: int| start <= k < j ==> #[trigger] is_digit(s@[k]),
            acc as int == digits_value(s@.subrange(start as int, j as int)),
            acc <= max,
        decreases n - j,
    {
        let c = s.get_char(j);
        let u = c as u32;
        if u < 48 || u > 57 {
            proof {
                assert(unsigned_body(s@)[j - start] == s@[j as int]);
                assert(!is_digit(s@[j as int]));
            }
            return None;
        }
        let d: u32 = u - 48;
        let next: u32 = acc * 10 + d;
        proof {
            let p = s@.subrange(start as int, j as int);
            let p1 = s@.subrange(start as int, j + 1 as int);
            assert(p1.drop_last() =~= p);
            assert(p1.last() == s@[j as int]);
            assert(is_digit(s@[j as int]));
            assert(digits_value(p1) == digits_value(p) * 10 + digit_value(s@[j as int]));
            assert(next as int == digits_value(p1));
        }
        if next > max as u32 {
            proof {
                let body = unsigned_body(s@);
                if all_digits(body) {
                    let p1 = s@.subrange(start as int, j + 1 as int);
                    assert(p1 =~= body.subrange(0, j + 1 - start as int));
                    lemma_digits_value_prefix_le(body, j + 1 - start as int);
                    assert(unsigned_value(s@) > max);
                }
            }
            return None;
        }
        acc = next;
        j = j + 1;
    }
    proof {
        assert(s@.subrange(start as int, j as int) =~= unsigned_body(s@));
        assert forall|i: int| 0 <= i < unsigned_body(s@).len() implies #[trigger] is_digit(
            unsigned_body(s@)[i],
        ) by {
            assert(unsigned_body(s@)[i] == s@[start + i]);
        }
    }
    Some(acc as u8)
}

/// Whether the expression is in percentage form (final character `%`).
pub fn is_percentage(s: &str) -> (r: bool)
    ensures
        r == is_percentage_expr(s@),
{
    let n = s.unicode_len();
    if n == 0 {
        false
    } else {
        s.get_char(n - 1) == '%'
    }
}

/// Parses a percentage expression: everything before the final character as
/// an unsigned integer in 0..=100.
pub fn parse_percentage(s: &str) -> (r: Result<u8, BrightnessError>)
    requires
        s@.len() > 0,
    ensures
        (match r {
            Ok(p) => is_unsigned_literal(s@.drop_last()) && unsigned_value(s@.drop_last()) <= 100
                && p as int == unsigned_value(s@.drop_last()),
            Err(e) => !(is_unsigned_literal(s@.drop_last()) && unsigned_value(s@.drop_last())
                <= 100) && e == BrightnessError::BadPercentage,
        }),
{
    let n = s.unicode_len();
    let body = s.substring_char(0, n - 1);
    proof {
        assert(body@ =~= s@.drop_last());
    }
    match parse_unsigned_bounded(body, 100) {
        Some(p) => Ok(p),
        None => Err(BrightnessError::BadPercentage),
    }
}

/// Converts a brightness expression to a byte, accepting exactly what
/// `spec_convert_brightness` describes.
pub fn convert_brightness(s: &str) -> (r: Option<u8>)
    ensures
        r == spec_convert_brightness(s@),
{
    if is_percentage(s) {
        match parse_percentage(s) {
            Ok(p) => {
                let b: u32 = (255u32 * (p as u32)) / 100;
                Some(b as u8)
            },
            Err(_) => None,
        }
    } else {
        parse_unsigned_bounded(s, 255)
    }
}

/// Validates a brightness expression, accepting exactly the strings that
/// `convert_brightness` converts: validation and conversion agree.
pub fn validate_brightness(s: String) -> (r: Result<(), String>)
    ensures
        r is Ok <==> spec_convert_brightness(s@) is Some,
        (match r {
            Err(m) => {
                &&& is_percentage_expr(s@) ==> m@ == "Brightness percentage must be 0-100%"@
                &&& !is_percentage_expr(s@) ==> m@ == "Brightness must be 0-255"@
            },
            Ok(_) => true,
        }),
{
    if is_percentage(s.as_str()) {
        match parse_percentage(s.as_str()) {
            Ok(_) => Ok(()),
            Err(_) => Err(String::from_str("Brightness percentage must be 0-100%")),
        }
    } else {
        match parse_unsigned_bounded(s.as_str(), 255) {
            Some(_) => Ok(()),
            None => Err(String::from_str("Brightness must be 0-255")),
        }
    }
}

/// Law: every plain digit string whose value lies in 0..=255 is accepted
/// and converts to exactly that value.
pub proof fn lemma_integer_string_converts(s: Seq<char>)
    requires
        s.len() > 0,
        all_digits(s),
        digits_value(s) <= 255,
    ensures
        spec_convert_brightness(s) == Some(digits_value(s) as u8),
{
    assert(is_digit(s.last()));
    assert(is_digit(s[0]));
    assert(s.last() != '%');
    assert(s[0] != '+');
    lemma_digits_value_nonneg(s);
}

/// Law: a plain digit string whose value lies above 255 is rejected.
pub proof fn lemma_integer_string_out_of_range(s: Seq<char>)
    requires
        s.len() > 0,
        all_digits(s),
        digits_value(s) > 255,
    ensures
        spec_convert_brightness(s) is None,
{
    assert(is_digit(s.last()));
    assert(is_digit(s[0]));
    assert(s.last() != '%');
    assert(s[0] != '+');
}

/// Law: every percentage string `p%` whose digit body values 0..=100 is
/// accepted and converts to the truncated byte `255*p/100`.
pub proof fn lemma_percentage_string_converts(s: Seq<char>)
    requires
        s.len() > 0,
        all_digits(s),
        digits_value(s) <= 100,
    ensures
        spec_convert_brightness(s.push('%')) == Some(percent_to_byte(digits_value(s)) as u8),
{
    let t = s.push('%');
    assert(t.last() == '%');
    assert(t.drop_last() =~= s);
    assert(is_digit(s[0]));
    assert(s[0] != '+');
    lemma_digits_value_nonneg(s);
}

/// Law: a percentage string `p%` whose digit body values above 100 is
/// rejected.
pub proof fn lemma_percentage_out_of_range(s: Seq<char>)
    requires
        s.len() > 0,
        all_digits(s),
        digits_value(s) > 100,
    ensures
        spec_convert_brightness(s.push('%')) is None,
{
    let t = s.push('%');
    assert(t.last() == '%');
    assert(t.drop_last() =~= s);
    assert(is_digit(s[0]));
    assert(s[0] != '+');
}

} // verus!
