use vstd::prelude::*;
use vstd::string::StrSliceExecFns;

verus! {

/// Is `c` a decimal digit?
pub open spec fn is_digit(c: char) -> bool {
    ('0' as u32) <= (c as u32) && (c as u32) <= ('9' as u32)
}

/// The numeric value of a digit character.
pub open spec fn digit_val(c: char) -> int {
    (c as u32) - ('0' as u32)
}

/// Is the whole text made of decimal digits?
pub open spec fn all_digits(s: Seq<char>) -> bool {
    forall|i: int| 0 <= i < s.len() ==> is_digit(#[trigger] s[i])
}

/// The number that a digit string denotes, read most significant first.
pub open spec fn digits_value(s: Seq<char>) -> int
    decreases s.len(),
{
    if s.len() == 0 {
        0
    } else {
        digits_value(s.drop_last()) * 10 + digit_val(s.last())
    }
}

proof fn lemma_digits_value_nonneg(s: Seq<char>)
    requires
        all_digits(s),
    ensures
        digits_value(s) >= 0,
    decreases s.len(),
{
    if s.len() > 0 {
        assert forall|i: int| 0 <= i < s.drop_last().len() implies is_digit(
            #[trigger] s.drop_last()[i],
        ) by {
            assert(s.drop_last()[i] == s[i]);
        }
        lemma_digits_value_nonneg(s.drop_last());
        assert(is_digit(s.last()));
    }
}

proof fn lemma_digits_value_prefix_le(s: Seq<char>, i: int)
    requires
        all_digits(s),
        0 <= i <= s.len(),
    ensures
        digits_value(s.take(i)) <= digits_value(s),
    decreases s.len() - i,
{
    if i < s.len() {
        assert(s.take(i + 1).drop_last() =~= s.take(i));
        assert(s.take(i + 1).last() == s[i]);
        assert forall|j: int| 0 <= j < s.take(i).len() implies is_digit(
            #[trigger] s.take(i)[j],
        ) by {
            assert(s.take(i)[j] == s[j]);
        }
        lemma_digits_value_nonneg(s.take(i));
        assert(is_digit(s[i]));
        assert(digits_value(s.take(i + 1)) == digits_value(s.take(i)) * 10 + digit_val(s[i]));
        lemma_digits_value_prefix_le(s, i + 1);
    } else {
        assert(s.take(i) =~= s);
    }
}

/// What parsing signed decimal text as a 64-bit integer gives: an optional
/// leading sign, then one or more digits; empty text, a stray character or
/// a value out of range parses to nothing.
pub open spec fn parse_int_spec(s: Seq<char>) -> Option<i64> {
    let negative = s.len() > 0 && s[0] == '-';
    let digits = if s.len() > 0 && (s[0] == '-' || s[0] == '+') {
        s.skip(1)
    } else {
        s
    };
    if digits.len() == 0 || !all_digits(digits) {
        None
    } else if negative {
        if digits_value(digits) <= 0x8000_0000_0000_0000 {
            Some((-digits_value(digits)) as i64)
        } else {
            None
        }
    } else {
        if digits_value(digits) <= 0x7FFF_FFFF_FFFF_FFFF {
            Some(digits_value(digits) as i64)
        } else {
            None
        }
    }
}

/// What parsing unsigned decimal text as a 64-bit integer gives: an optional
/// leading plus, then one or more digits, within `u64` range.
pub open spec fn parse_uint_spec(s: Seq<char>) -> Option<u64> {
    let digits = if s.len() > 0 && s[0] == '+' {
        s.skip(1)
    } else {
        s
    };
    if digits.len() == 0 || !all_digits(digits) {
        None
    } else if digits_value(digits) <= 0xFFFF_FFFF_FFFF_FFFF {
        Some(digits_value(digits) as u64)
    } else {
        None
    }
}

/// Scans `s` from position `start` to its end as decimal digits, giving
/// their value when every character is a digit and the value is at most
/// `limit`.
fn scan_digits(s: &str, start: usize, limit: u128) -> (r: Option<u128>)
    requires
        start <= s@.len(),
        limit <= 0xFFFF_FFFF_FFFF_FFFF,
    ensures
        r is Some <==> (all_digits(s@.skip(start as int)) && digits_value(s@.skip(start as int))
            <= limit),
        r matches Some(v) ==> v == digits_value(s@.skip(start as int)),
{
    let ghost digits: Seq<char> = s@.skip(start as int);
    let n = s.unicode_len();
    let mut mag: u128 = 0;
    let mut i: usize = start;
    while i < n
        invariant
            start <= i <= n,
            n == s@.len(),
            limit <= 0xFFFF_FFFF_FFFF_FFFF,
            digits == s@.skip(start as int),
            mag == digits_value(digits.take(i - start)),
            mag <= limit,
            forall|j: int| 0 <= j < i - start ==> is_digit(#[trigger] digits[j]),
        decreases n - i,
    {
        let c = s.get_char(i);
        proof {
            assert(digits[i - start] == s@[i as int]);
        }
        let cv = c as u32;
        if cv < 48 || cv > 57 {
            return None;
        }
        let d: u128 = (cv - 48) as u128;
        proof {
            assert(digits.take(i - start + 1).drop_last() =~= digits.take(i - start));
            assert(digits.take(i - start + 1).last() == digits[i - start]);
        }
        mag = mag * 10 + d;
        if mag > limit {
            proof {
                if all_digits(digits) {
                    lemma_digits_value_prefix_le(digits, i - start + 1);
                }
            }
            return None;
        }
        i += 1;
    }
    proof {
        assert(digits.take(n - start) =~= digits);
    }
    Some(mag)
}

/// Parses signed decimal text as an `i64`, exactly as `parse_int_spec` reads it.
pub fn parse_int_text(s: &str) -> (r: Option<i64>)
    ensures
        r == parse_int_spec(s@),
{
    let n = s.unicode_len();
    if n == 0 {
        return None;
    }
    let first = s.get_char(0);
    let negative = first == '-';
    let start: usize = if negative || first == '+' {
        1
    } else {
        0
    };
    if n == start {
        return None;
    }
    let limit: u128 = if negative {
        0x8000_0000_0000_0000
    } else {
        0x7FFF_FFFF_FFFF_FFFF
    };
    proof {
        if start == 0 {
            assert(s@.skip(0) =~= s@);
        }
    }
    let mag: u128 = match scan_digits(s, start, limit) {
        Some(m) => m,
        None => {
            return None;
        },
    };
    if negative {
        if mag == 0x8000_0000_0000_0000 {
            Some(i64::MIN)
        } else {
            Some(-(mag as i64))
        }
    } else {
        Some(mag as i64)
    }
}

/// Parses unsigned decimal text as a `u64`, exactly as `parse_uint_spec` reads it.
pub fn parse_uint_text(s: &str) -> (r: Option<u64>)
    ensures
        r == parse_uint_spec(s@),
{
    let n = s.unicode_len();
    if n == 0 {
        return None;
    }
    let first = s.get_char(0);
    let start: usize = if first == '+' {
        1
    } else {
        0
    };
    if n == start {
        return None;
    }
    proof {
        if start == 0 {
            assert(s@.skip(0) =~= s@);
        }
    }
    match scan_digits(s, start, 0xFFFF_FFFF_FFFF_FFFF) {
        Some(m) => Some(m as u64),
        None => None,
    }
}

/// A type that a raw call-argument text can be parsed into.
pub trait CallArgument: Sized {
    /// Does this text parse as a value of the type?
    spec fn parse_ok(text: Seq<char>) -> bool;

    /// Is `self` what this text parses to?
    spec fn text_parses_to(self, text: Seq<char>) -> bool;

    /// Parses the text, giving a value exactly when `parse_ok` holds of it.
    fn parse_arg(text: &str) -> (r: Option<Self>)
        ensures
            r is Some <==> Self::parse_ok(text@),
            r matches Some(v) ==> v.text_parses_to(text@),
    ;
}

impl CallArgument for i64 {
    open spec fn parse_ok(text: Seq<char>) -> bool {
        parse_int_spec(text) is Some
    }

    open spec fn text_parses_to(self, text: Seq<char>) -> bool {
        parse_int_spec(text) == Some(self)
    }

    fn parse_arg(text: &str) -> (r: Option<i64>) {
        parse_int_text(text)
    }
}

impl CallArgument for u64 {
    open spec fn parse_ok(text: Seq<char>) -> bool {
        parse_uint_spec(text) is Some
    }

    open spec fn text_parses_to(self, text: Seq<char>) -> bool {
        parse_uint_spec(text) == Some(self)
    }

    fn parse_arg(text: &str) -> (r: Option<u64>) {
        parse_uint_text(text)
    }
}

impl CallArgument for String {
    open spec fn parse_ok(text: Seq<char>) -> bool {
        true
    }

    open spec fn text_parses_to(self, text: Seq<char>) -> bool {
        self@ == text
    }

    fn parse_arg(text: &str) -> (r: Option<String>) {
        Some(text.to_owned())
    }
}

} // verus!
