//! Reading user input: separators, fields and decimal integers.

use vstd::prelude::*;

verus! {

/// Whether the separator `", "` starts at index `i` of `s`.
pub open spec fn sep_at(s: Seq<char>, i: int) -> bool {
    0 <= i && i + 1 < s.len() && s[i] == ',' && s[i + 1] == ' '
}

/// Index of the first separator that starts at or after `i`, or `s.len()`
/// when there is none.
pub open spec fn next_sep(s: Seq<char>, i: int) -> int
    decreases s.len() - i,
{
    if i < 0 || i + 1 >= s.len() {
        s.len() as int
    } else if sep_at(s, i) {
        i
    } else {
        next_sep(s, i + 1)
    }
}

/// The field that starts at `i` and runs up to the next separator.
pub open spec fn field_from(s: Seq<char>, i: int) -> Seq<char> {
    s.subrange(i, next_sep(s, i))
}

pub proof fn lemma_next_sep_bounds(s: Seq<char>, i: int)
    requires
        0 <= i <= s.len(),
    ensures
        i <= next_sep(s, i) <= s.len(),
        next_sep(s, i) < s.len() ==> sep_at(s, next_sep(s, i)),
        forall|j: int| i <= j < next_sep(s, i) ==> !sep_at(s, j),
    decreases s.len() - i,
{
    if i + 1 < s.len() && !sep_at(s, i) {
        lemma_next_sep_bounds(s, i + 1);
    }
}

pub open spec fn is_digit(c: char) -> bool {
    '0' <= c && c <= '9'
}

pub open spec fn all_digits(s: Seq<char>) -> bool {
    forall|i: int| 0 <= i < s.len() ==> is_digit(#[trigger] s[i])
}

/// The number that a string of decimal digits denotes.
pub open spec fn digits_value(s: Seq<char>) -> int
    decreases s.len(),
{
    if s.len() == 0 {
        0
    } else {
        digits_value(s.drop_last()) * 10 + (s.last() as int - '0' as int)
    }
}

/// What `i64::from_str` accepts: an optional `+` or `-`, then at least one
/// decimal digit and nothing else, denoting a value in range.
pub open spec fn parse_i64(s: Seq<char>) -> Option<i64> {
    let signed = s.len() > 0 && (s[0] == '-' || s[0] == '+');
    let digits = if signed {
        s.drop_first()
    } else {
        s
    };
    let v = if s.len() > 0 && s[0] == '-' {
        -digits_value(digits)
    } else {
        digits_value(digits)
    };
    if digits.len() > 0 && all_digits(digits) && i64::MIN <= v <= i64::MAX {
        Some(v as i64)
    } else {
        None
    }
}

proof fn lemma_digits_value_nonneg(s: Seq<char>)
    requires
        all_digits(s),
    ensures
        digits_value(s) >= 0,
    decreases s.len(),
{
    if s.len() > 0 {
        assert(all_digits(s.drop_last())) by {
            assert forall|i: int| 0 <= i < s.drop_last().len() implies is_digit(
                #[trigger] s.drop_last()[i],
            ) by {
                assert(s.drop_last()[i] == s[i]);
            }
        }
        lemma_digits_value_nonneg(s.drop_last());
        assert(is_digit(s[s.len() - 1]));
    }
}

/// The characters of `s`, one element each.
pub fn chars_of(s: &str) -> (r: Vec<char>)
    ensures
        r@ == s@,
{
    let n = s.unicode_len();
    let mut r: Vec<char> = Vec::new();
    let mut i: usize = 0;
    while i < n
        invariant
            n == s@.len(),
            i <= n,
            r@ == s@.subrange(0, i as int),
        decreases n - i,
    {
        r.push(s.get_char(i));
        i += 1;
    }
    assert(r@ =~= s@);
    r
}

/// Index of the first separator `", "` in `s` at or after `from`, or the
/// length of `s` when there is none.
pub fn find_separator(s: &Vec<char>, from: usize) -> (r: usize)
    requires
        from <= s.len(),
    ensures
        r == next_sep(s@, from as int),
{
    let mut i: usize = from;
    while s.len() - i >= 2
        invariant
            from <= i <= s.len(),
            next_sep(s@, from as int) == next_sep(s@, i as int),
        decreases s.len() - i,
    {
        if s[i] == ',' && s[i + 1] == ' ' {
            return i;
        }
        i += 1;
    }
    s.len()
}

/// Reads `s[start..end]` as a decimal `i64`, as `str::parse` does.
pub fn parse_int(s: &Vec<char>, start: usize, end: usize) -> (r: Option<i64>)
    requires
        start <= end <= s.len(),
    ensures
        r == parse_i64(s@.subrange(start as int, end as int)),
{
    let ghost t = s@.subrange(start as int, end as int);
    let negative = start < end && s[start] == '-';
    let signed = start < end && (s[start] == '-' || s[start] == '+');
    let first: usize = if signed {
        start + 1
    } else {
        start
    };
    let ghost digits = if signed {
        t.drop_first()
    } else {
        t
    };
    assert(digits =~= s@.subrange(first as int, end as int));
    assert(start < end ==> t[0] == s@[start as int]);
    if first == end {
        return None;
    }
    // the magnitude read so far, held at one past the largest that any i64 has
    let cap: u128 = 9223372036854775809;
    let mut acc: u128 = 0;
    let mut i: usize = first;
    while i < end
        invariant
            start <= first <= i <= end <= s.len(),
            digits == s@.subrange(first as int, end as int),
            t == s@.subrange(start as int, end as int),
            signed == (t.len() > 0 && (t[0] == '-' || t[0] == '+')),
            negative == (t.len() > 0 && t[0] == '-'),
            digits == if signed {
                t.drop_first()
            } else {
                t
            },
            cap == 9223372036854775809u128,
            all_digits(s@.subrange(first as int, i as int)),
            acc == if digits_value(s@.subrange(first as int, i as int)) < cap as int {
                digits_value(s@.subrange(first as int, i as int))
            } else {
                cap as int
            },
        decreases end - i,
    {
        let c = s[i];
        if !('0' <= c && c <= '9') {
            assert(digits[i - first] == c);
            assert(!all_digits(digits));
            return None;
        }
        let ghost prev = s@.subrange(first as int, i as int);
        let ghost next = s@.subrange(first as int, i + 1);
        assert(next.drop_last() =~= prev);
        assert(all_digits(next)) by {
            assert forall|j: int| 0 <= j < next.len() implies is_digit(#[trigger] next[j]) by {
                if j < prev.len() {
                    assert(next[j] == prev[j]);
                }
            }
        }
        proof {
            lemma_digits_value_nonneg(prev);
        }
        let d = (c as u32 - '0' as u32) as u128;
        if acc < cap {
            assert(acc * 10 + d <= 100000000000000000000) by (nonlinear_arith)
                requires
                    acc < cap,
                    d <= 9,
                    cap == 9223372036854775809u128,
            ;
            acc = acc * 10 + d;
            if acc > cap {
                acc = cap;
            }
        } else {
            assert(digits_value(next) >= digits_value(prev) * 10) by (nonlinear_arith)
                requires
                    digits_value(next) == digits_value(prev) * 10 + d,
                    d >= 0,
            ;
            assert(digits_value(prev) * 10 >= digits_value(prev)) by (nonlinear_arith)
                requires
                    digits_value(prev) >= 0,
            ;
        }
        i += 1;
    }
    assert(s@.subrange(first as int, i as int) =~= digits);
    if negative {
        if acc <= 9223372036854775808 {
            Some((0 - (acc as i128)) as i64)
        } else {
            None
        }
    } else if acc <= 9223372036854775807 {
        Some(acc as i64)
    } else {
        None
    }
}

} // verus!
