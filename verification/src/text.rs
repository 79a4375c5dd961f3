//! Reading numbers out of text, and comparing and joining text.
use vstd::prelude::*;

verus! {

pub open spec fn is_digit(c: char) -> bool {
    '0' <= c && c <= '9'
}

pub open spec fn digit_value(c: char) -> int {
    (c as int) - ('0' as int)
}

pub open spec fn all_digits(s: Seq<char>) -> bool {
    forall|i: int| 0 <= i < s.len() ==> is_digit(#[trigger] s[i])
}

/// The number that a run of decimal digits denotes, read left to right.
pub open spec fn digits_value(s: Seq<char>) -> int
    decreases s.len(),
{
    if s.len() == 0 {
        0
    } else {
        digits_value(s.drop_last()) * 10 + digit_value(s.last())
    }
}

/// What `i16::from_str_radix(s, 10)` accepts and yields: an optional `+` or
/// `-`, then at least one decimal digit, with a value in the range of `i16`.
pub open spec fn decimal_i16(s: Seq<char>) -> Option<i16> {
    let signed = s.len() > 0 && (s[0] == '+' || s[0] == '-');
    let digits = if signed { s.drop_first() } else { s };
    let magnitude = digits_value(digits);
    let value = if s.len() > 0 && s[0] == '-' { -magnitude } else { magnitude };
    if digits.len() > 0 && all_digits(digits) && i16::MIN <= value <= i16::MAX {
        Some(value as i16)
    } else {
        None
    }
}

/// Text that `f32::from_str` reads as a number among the texts made only of
/// digits and dots: at least one digit and at most one dot.
pub open spec fn is_decimal_text(s: Seq<char>) -> bool {
    &&& forall|i: int| 0 <= i < s.len() ==> is_digit(#[trigger] s[i]) || s[i] == '.'
    &&& exists|i: int| 0 <= i < s.len() && is_digit(#[trigger] s[i])
    &&& forall|i: int, j: int| 0 <= i < j < s.len() && s[i] == '.' ==> s[j] != '.'
}

/// The value of the digits that stand before the first dot of `s`.
pub open spec fn whole_part(s: Seq<char>) -> int
    decreases s.len(),
{
    if s.len() == 0 {
        0
    } else if s.drop_last().contains('.') || s.last() == '.' {
        whole_part(s.drop_last())
    } else {
        whole_part(s.drop_last()) * 10 + if is_digit(s.last()) { digit_value(s.last()) } else { 0 }
    }
}

/// A decimal text turned into an `i16` by dropping its fraction, capped at
/// `i16::MAX`.
pub open spec fn truncated_i16(s: Seq<char>) -> i16 {
    if whole_part(s) > i16::MAX {
        i16::MAX
    } else {
        whole_part(s) as i16
    }
}

proof fn lemma_digits_nonneg(s: Seq<char>)
    requires
        all_digits(s),
    ensures
        digits_value(s) >= 0,
    decreases s.len(),
{
    if s.len() > 0 {
        assert(all_digits(s.drop_last()));
        lemma_digits_nonneg(s.drop_last());
        assert(is_digit(s[s.len() - 1]));
    }
}

/// Reads a decimal `i16` as `i16::from_str_radix(s, 10)` does, `None` where
/// that call fails.
pub fn parse_i16(s: &str) -> (r: Option<i16>)
    ensures
        r == decimal_i16(s@),
{
    let n = s.unicode_len();
    if n == 0 {
        return None;
    }
    let first = s.get_char(0);
    let negative = first == '-';
    let start: usize = if first == '+' || first == '-' { 1 } else { 0 };
    if start == n {
        return None;
    }
    let ghost digits = if start == 1 { s@.drop_first() } else { s@ };
    assert(first == s@[0]);
    assert((s@.len() > 0 && (s@[0] == '+' || s@[0] == '-')) == (start == 1));
    assert(digits =~= s@.subrange(start as int, n as int));
    let mut capped: u32 = 0;
    let mut i: usize = start;
    while i < n
        invariant
            start <= i <= n,
            n == s@.len(),
            start == 0 || start == 1,
            digits =~= s@.subrange(start as int, n as int),
            digits == if s@.len() > 0 && (s@[0] == '+' || s@[0] == '-') {
                s@.drop_first()
            } else {
                s@
            },
            all_digits(s@.subrange(start as int, i as int)),
            capped as int == if digits_value(s@.subrange(start as int, i as int)) > 40000 {
                40000
            } else {
                digits_value(s@.subrange(start as int, i as int))
            },
        decreases n - i,
    {
        let c = s.get_char(i);
        if !('0' <= c && c <= '9') {
            assert(!all_digits(digits)) by {
                assert(digits[i - start] == c);
            }
            assert(decimal_i16(s@) is None);
            return None;
        }
        let d = (c as u32) - ('0' as u32);
        let ghost before = s@.subrange(start as int, i as int);
        let ghost after = s@.subrange(start as int, i + 1);
        assert(after.drop_last() =~= before);
        assert(after.last() == c);
        proof {
            lemma_digits_nonneg(before);
        }
        if capped >= 40000 {
            capped = 40000;
        } else {
            capped = capped * 10 + d;
            if capped > 40000 {
                capped = 40000;
            }
        }
        i = i + 1;
        assert(all_digits(after)) by {
            assert forall|k: int| 0 <= k < after.len() implies is_digit(#[trigger] after[k]) by {
                if k < after.len() - 1 {
                    assert(after[k] == before[k]);
                }
            }
        }
    }
    assert(s@.subrange(start as int, n as int) =~= digits);
    proof {
        lemma_digits_nonneg(digits);
    }
    if negative {
        if capped <= 32768 {
            let v: i32 = 0 - (capped as i32);
            Some(v as i16)
        } else {
            None
        }
    } else {
        if capped <= 32767 {
            Some(capped as i16)
        } else {
            None
        }
    }
}

/// Whether `s` is a decimal text in the sense of `is_decimal_text`.
pub fn is_decimal(s: &str) -> (b: bool)
    ensures
        b == is_decimal_text(s@),
{
    let n = s.unicode_len();
    let mut seen_digit = false;
    let mut dot_at: Option<usize> = None;
    let mut i: usize = 0;
    while i < n
        invariant
            i <= n,
            n == s@.len(),
            forall|k: int| 0 <= k < i ==> is_digit(#[trigger] s@[k]) || s@[k] == '.',
            seen_digit <==> exists|k: int| 0 <= k < i && is_digit(#[trigger] s@[k]),
            match dot_at {
                None => forall|k: int| 0 <= k < i ==> s@[k] != '.',
                Some(d) => d < i && s@[d as int] == '.' && forall|k: int|
                    0 <= k < i && k != d ==> s@[k] != '.',
            },
        decreases n - i,
    {
        let c = s.get_char(i);
        if '0' <= c && c <= '9' {
            seen_digit = true;
        } else if c == '.' {
            match dot_at {
                Some(d) => {
                    assert(!is_decimal_text(s@)) by {
                        assert(s@[d as int] == '.' && s@[i as int] == '.');
                    }
                    return false;
                },
                None => {
                    dot_at = Some(i);
                },
            }
        } else {
            assert(!is_decimal_text(s@)) by {
                assert(!is_digit(s@[i as int]) && s@[i as int] != '.');
            }
            return false;
        }
        i = i + 1;
    }
    if !seen_digit {
        assert(!is_decimal_text(s@));
        return false;
    }
    assert(is_decimal_text(s@));
    true
}

/// Drops the fraction of a decimal text and caps the rest at `i16::MAX`.
pub fn truncate_to_i16(s: &str) -> (r: i16)
    ensures
        r == truncated_i16(s@),
{
    let n = s.unicode_len();
    let mut capped: u32 = 0;
    let mut seen_dot = false;
    let mut i: usize = 0;
    while i < n
        invariant
            i <= n,
            n == s@.len(),
            seen_dot == s@.take(i as int).contains('.'),
            whole_part(s@.take(i as int)) >= 0,
            capped as int == if whole_part(s@.take(i as int)) > 40000 {
                40000
            } else {
                whole_part(s@.take(i as int))
            },
        decreases n - i,
    {
        let c = s.get_char(i);
        let ghost before = s@.take(i as int);
        let ghost after = s@.take(i + 1);
        assert(after.drop_last() =~= before);
        assert(after.last() == c);
        if c == '.' {
            seen_dot = true;
            assert(after.contains('.')) by {
                assert(after[i as int] == '.');
            }
        } else if !seen_dot {
            let d: u32 = if '0' <= c && c <= '9' { (c as u32) - ('0' as u32) } else { 0 };
            assert(!after.contains('.')) by {
                if after.contains('.') {
                    let k = choose|k: int| 0 <= k < after.len() && after[k] == '.';
                    if k < i {
                        assert(before[k] == '.');
                    }
                }
            }
            if capped >= 40000 {
                capped = 40000;
            } else {
                capped = capped * 10 + d;
                if capped > 40000 {
                    capped = 40000;
                }
            }
        } else {
            assert(after.contains('.')) by {
                let k = choose|k: int| 0 <= k < before.len() && before[k] == '.';
                assert(after[k] == '.');
            }
        }
        i = i + 1;
    }
    assert(s@.take(n as int) =~= s@);
    if capped > 32767 {
        32767
    } else {
        capped as i16
    }
}

/// What `format!("{:?}", s)` gives for a string: the text in double quotes,
/// with the escapes of `str::escape_debug`.
pub uninterp spec fn debug_text(s: Seq<char>) -> Seq<char>;

/// Calls the `Debug` formatting of `str` through `format!`; claims only that
/// the text it hands back is `debug_text(s)`.
#[verifier::external_body]
pub(crate) fn debug_string(s: &str) -> (r: String)
    ensures
        r@ == debug_text(s@),
{
    format!("{:?}", s)
}

/// Whether two texts are the same.
pub fn same_text(a: &str, b: &str) -> (r: bool)
    ensures
        r == (a@ == b@),
{
    let n = a.unicode_len();
    if n != b.unicode_len() {
        return false;
    }
    let mut i: usize = 0;
    while i < n
        invariant
            i <= n,
            n == a@.len() == b@.len(),
            forall|k: int| 0 <= k < i ==> a@[k] == b@[k],
        decreases n - i,
    {
        if a.get_char(i) != b.get_char(i) {
            return false;
        }
        i = i + 1;
    }
    assert(a@ =~= b@);
    true
}

} // verus!
