//! Configuration values: parsing the activation threshold (whole days of
//! allowed inactivity) from its textual form, with a default of 7 days.

use vstd::prelude::*;
use vstd::string::*;

verus! {

/// An ASCII decimal digit.
pub open spec fn is_digit(c: char) -> bool {
    48 <= c as u32 && c as u32 <= 57
}

/// The numeric value of a digit character.
pub open spec fn digit_val(c: char) -> int {
    c as u32 - 48
}

pub open spec fn all_digits(s: Seq<char>) -> bool {
    forall|i: int| 0 <= i < s.len() ==> is_digit(#[trigger] s[i])
}

/// The value of a string of digits read in base ten.
pub open spec fn digits_value(s: Seq<char>) -> int
    decreases s.len(),
{
    if s.len() == 0 {
        0
    } else {
        digits_value(s.drop_last()) * 10 + digit_val(s.last())
    }
}

/// The shape of a decimal integer literal: an optional sign, then one or
/// more digits, and nothing else.
pub open spec fn is_int_literal(s: Seq<char>) -> bool {
    if s.len() > 0 && (s[0] == '-' || s[0] == '+') {
        s.len() >= 2 && all_digits(s.subrange(1, s.len() as int))
    } else {
        s.len() >= 1 && all_digits(s)
    }
}

/// The value a decimal integer literal denotes.
pub open spec fn int_literal_value(s: Seq<char>) -> int {
    if s.len() > 0 && s[0] == '-' {
        -digits_value(s.subrange(1, s.len() as int))
    } else if s.len() > 0 && s[0] == '+' {
        digits_value(s.subrange(1, s.len() as int))
    } else {
        digits_value(s)
    }
}

pub open spec fn in_i64_range(v: int) -> bool {
    i64::MIN <= v <= i64::MAX
}

/// The threshold that configuration text `s` denotes: the value of a decimal
/// integer literal that fits in an `i64`, else the default of 7 days.
pub open spec fn spec_threshold_days(s: Seq<char>) -> int {
    if is_int_literal(s) && in_i64_range(int_literal_value(s)) {
        int_literal_value(s)
    } else {
        7
    }
}

proof fn lemma_digits_value_nonneg(s: Seq<char>)
    requires
        all_digits(s),
    ensures
        digits_value(s) >= 0,
    decreases s.len(),
{
    if s.len() > 0 {
        assert(all_digits(s.drop_last())) by {
            assert forall|i: int| 0 <= i < s.drop_last().len() implies is_digit(
                #[trigger] s.drop_last()[i],
            ) by {
                assert(s.drop_last()[i] == s[i]);
            }
        }
        lemma_digits_value_nonneg(s.drop_last());
    }
}

/// Appending digits to a digit string never shrinks its value.
proof fn lemma_digits_value_grows(s: Seq<char>, i: int)
    requires
        all_digits(s),
        0 <= i <= s.len(),
    ensures
        digits_value(s) >= digits_value(s.subrange(0, i)),
    decreases s.len() - i,
{
    if i == s.len() {
        assert(s.subrange(0, i) =~= s);
    } else {
        assert(s.subrange(0, i + 1).drop_last() =~= s.subrange(0, i));
        assert(all_digits(s.subrange(0, i))) by {
            assert forall|j: int| 0 <= j < i implies is_digit(#[trigger] s.subrange(0, i)[j]) by {
                assert(s.subrange(0, i)[j] == s[j]);
            }
        }
        lemma_digits_value_nonneg(s.subrange(0, i));
        lemma_digits_value_grows(s, i + 1);
    }
}

/// Parses a decimal integer with exactly the grammar and range behaviour of
/// an `i64` literal: `Some` on an optionally signed digit string whose value
/// fits, `None` on anything else.
pub fn parse_i64(s: &str) -> (r: Option<i64>)
    ensures
        is_int_literal(s@) && in_i64_range(int_literal_value(s@)) ==> r == Some(
            int_literal_value(s@) as i64,
        ),
        !(is_int_literal(s@) && in_i64_range(int_literal_value(s@))) ==> r is None,
{
    let len = s.unicode_len();
    if len == 0 {
        return None;
    }
    let c0 = s.get_char(0);
    let neg = c0 == '-';
    let signed = neg || c0 == '+';
    let start: usize = if signed {
        1
    } else {
        0
    };
    if start >= len {
        return None;
    }
    let bound: u128 = if neg {
        9223372036854775808
    } else {
        9223372036854775807
    };
    let ghost digits = s@.subrange(start as int, len as int);
    let mut acc: u128 = 0;
    let mut i: usize = start;
    while i < len
        invariant
            len == s@.len(),
            1 <= len,
            start <= i <= len,
            start == if signed {
                1int
            } else {
                0int
            },
            signed == (s@[0] == '-' || s@[0] == '+'),
            neg == (s@[0] == '-'),
            start < len,
            bound == if neg {
                9223372036854775808u128
            } else {
                9223372036854775807u128
            },
            digits == s@.subrange(start as int, len as int),
            all_digits(s@.subrange(start as int, i as int)),
            acc as int == digits_value(s@.subrange(start as int, i as int)),
            acc <= bound,
        decreases len - i,
    {
        let c = s.get_char(i);
        let cu = c as u32;
        if cu < 48 || cu > 57 {
            proof {
                assert(digits[i - start] == s@[i as int]);
                assert(!all_digits(digits));
                assert(!is_int_literal(s@));
            }
            return None;
        }
        let d: u128 = (cu - 48) as u128;
        proof {
            let prev = s@.subrange(start as int, i as int);
            let cur = s@.subrange(start as int, i as int + 1);
            assert(cur.drop_last() =~= prev);
            assert(cur.last() == s@[i as int]);
        }
        let new_acc = acc * 10 + d;
        if new_acc > bound {
            proof {
                if !signed {
                    assert(digits =~= s@);
                }
                if is_int_literal(s@) {
                    assert(all_digits(digits));
                    assert(s@.subrange(start as int, i as int + 1) =~= digits.subrange(
                        0,
                        i - start + 1,
                    ));
                    lemma_digits_value_grows(digits, i - start + 1);
                    assert(digits_value(digits) > bound);
                    assert(int_literal_value(s@) == if neg {
                        -digits_value(digits)
                    } else {
                        digits_value(digits)
                    });
                    assert(!in_i64_range(int_literal_value(s@)));
                }
            }
            return None;
        }
        acc = new_acc;
        i += 1;
    }
    proof {
        assert(s@.subrange(start as int, i as int) =~= digits);
        if !signed {
            assert(digits =~= s@);
        }
        assert(is_int_literal(s@));
        assert(int_literal_value(s@) == if neg {
            -digits_value(digits)
        } else {
            digits_value(digits)
        });
    }
    let v: i64 = if neg {
        if acc == 9223372036854775808 {
            i64::MIN
        } else {
            -(acc as i64)
        }
    } else {
        acc as i64
    };
    Some(v)
}

/// The watchdog threshold, in whole days, that configuration text denotes:
/// the value of a decimal `i64` literal, or the default of 7 days when the
/// text is not one.
pub fn parse_threshold_days(s: &str) -> (t: i64)
    ensures
        t as int == spec_threshold_days(s@),
{
    match parse_i64(s) {
        Some(v) => v,
        None => 7,
    }
}

} // verus!
