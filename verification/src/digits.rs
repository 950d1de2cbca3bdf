//! Decimal text: the resource ids embedded in cache keys are decimal
//! digits, read when a tombstone expires and written when a key or a graph
//! node id is built.

use vstd::prelude::*;

verus! {

/// A decimal digit character.
pub open spec fn is_dec_digit(c: char) -> bool {
    '0' <= c && c <= '9'
}

/// The value of a decimal digit character.
pub open spec fn dec_digit(c: char) -> int {
    c as int - '0' as int
}

/// Every character is a decimal digit.
pub open spec fn all_dec_digits(s: Seq<char>) -> bool {
    forall|i: int| 0 <= i < s.len() ==> is_dec_digit(s[i])
}

/// The number a digit string denotes.
pub open spec fn dec_value(s: Seq<char>) -> int
    decreases s.len(),
{
    if s.len() == 0 {
        0
    } else {
        dec_value(s.drop_last()) * 10 + dec_digit(s.last())
    }
}

/// A digit string denotes a number no smaller than any of its prefixes'.
proof fn lemma_dec_value_monotone(s: Seq<char>, i: int)
    requires
        all_dec_digits(s),
        0 <= i <= s.len(),
    ensures
        dec_value(s) >= dec_value(s.take(i)),
        dec_value(s) >= 0,
    decreases s.len() - i,
{
    if i == s.len() {
        assert(s.take(i) =~= s);
        lemma_dec_value_nonneg(s);
    } else {
        lemma_dec_value_monotone(s, i + 1);
        lemma_dec_value_nonneg(s.take(i));
        assert(s.take(i + 1).drop_last() =~= s.take(i));
        assert(dec_value(s.take(i + 1)) == dec_value(s.take(i)) * 10 + dec_digit(s[i]));
    }
}

proof fn lemma_dec_value_nonneg(s: Seq<char>)
    requires
        all_dec_digits(s),
    ensures
        dec_value(s) >= 0,
    decreases s.len(),
{
    if s.len() > 0 {
        assert(all_dec_digits(s.drop_last()));
        lemma_dec_value_nonneg(s.drop_last());
    }
}

/// Reads a non-empty string of decimal digits as an `i64`. `None` when the
/// string is empty, holds a non-digit, or denotes a number too large.
pub fn parse_dec_i64(s: &str) -> (r: Option<i64>)
    ensures
        match r {
            Some(v) => s@.len() > 0 && all_dec_digits(s@) && v as int == dec_value(s@),
            None => s@.len() == 0 || !all_dec_digits(s@) || dec_value(s@) > i64::MAX as int,
        },
{
    match parse_dec_u64_bounded(s, 9223372036854775807u64) {
        Some(v) => Some(v as i64),
        None => None,
    }
}

/// Reads a non-empty string of decimal digits whose value stays within the
/// bound.
fn parse_dec_u64_bounded(s: &str, limit: u64) -> (r: Option<u64>)
    ensures
        match r {
            Some(v) => s@.len() > 0 && all_dec_digits(s@) && v as int == dec_value(s@) && v
                <= limit,
            None => s@.len() == 0 || !all_dec_digits(s@) || dec_value(s@) > limit as int,
        },
{
    let len = s.unicode_len();
    if len == 0 {
        return None;
    }
    let mut value: u64 = 0;
    let mut i: usize = 0;
    while i < len
        invariant
            len == s@.len(),
            0 <= i <= len,
            all_dec_digits(s@.take(i as int)),
            value as int == dec_value(s@.take(i as int)),
            value <= limit,
        decreases len - i,
    {
        let c = s.get_char(i);
        let cu = c as u32;
        if cu < 48 || cu > 57 {
            proof {
                assert(!is_dec_digit(c));
            }
            return None;
        }
        let d: u32 = cu - 48;
        proof {
            assert(is_dec_digit(c));
            assert(dec_digit(c) == d as int);
        }
        if d as u64 > limit || value > (limit - d as u64) / 10 {
            proof {
                assert(s@.take(i as int + 1).drop_last() =~= s@.take(i as int));
                assert(dec_value(s@.take(i as int + 1)) == value * 10 + d);
                lemma_dec_value_nonneg(s@.take(i as int));
                if all_dec_digits(s@) {
                    lemma_dec_value_monotone(s@, i as int + 1);
                }
            }
            return None;
        }
        value = value * 10 + d as u64;
        i = i + 1;
        proof {
            assert(s@.take(i as int).drop_last() =~= s@.take(i as int - 1));
        }
    }
    proof {
        assert(s@.take(len as int) =~= s@);
    }
    Some(value)
}

/// A signed decimal integer as the store's id parse accepts it: an optional
/// leading sign followed by at least one digit.
pub open spec fn is_signed_dec(s: Seq<char>) -> bool {
    if s.len() > 0 && (s[0] == '+' || s[0] == '-') {
        s.len() > 1 && all_dec_digits(s.skip(1))
    } else {
        s.len() > 0 && all_dec_digits(s)
    }
}

/// The number a signed decimal string denotes.
pub open spec fn signed_dec_value(s: Seq<char>) -> int {
    if s.len() > 0 && s[0] == '-' {
        -dec_value(s.skip(1))
    } else if s.len() > 0 && s[0] == '+' {
        dec_value(s.skip(1))
    } else {
        dec_value(s)
    }
}

/// Reads a signed decimal integer as an `i64`, accepting exactly what the
/// store's own id parse accepts: an optional leading `+` or `-`, then one or
/// more digits. `None` when the text has another shape or the value does
/// not fit.
pub fn parse_signed_dec_i64(s: &str) -> (r: Option<i64>)
    ensures
        match r {
            Some(v) => is_signed_dec(s@) && v as int == signed_dec_value(s@),
            None => !is_signed_dec(s@) || signed_dec_value(s@) > i64::MAX as int
                || signed_dec_value(s@) < i64::MIN as int,
        },
{
    let len = s.unicode_len();
    if len == 0 {
        return None;
    }
    let c0 = s.get_char(0);
    let cu = c0 as u32;
    if cu == 45 {
        proof {
            assert(c0 == '-');
        }
        let rest = s.substring_char(1, len);
        proof {
            assert(rest@ =~= s@.skip(1));
        }
        // The magnitude of the smallest id is one past the largest positive
        // one.
        match parse_dec_u64_bounded(rest, 9223372036854775808u64) {
            Some(v) => {
                if v == 9223372036854775808u64 {
                    Some(i64::MIN)
                } else {
                    Some(-(v as i64))
                }
            },
            None => None,
        }
    } else if cu == 43 {
        proof {
            assert(c0 == '+');
        }
        let rest = s.substring_char(1, len);
        proof {
            assert(rest@ =~= s@.skip(1));
        }
        parse_dec_i64(rest)
    } else {
        proof {
            assert(c0 != '-' && c0 != '+');
        }
        parse_dec_i64(s)
    }
}

/// Writes a non-negative number as decimal digits: the unique digit string
/// without a leading zero that denotes it.
pub fn u64_to_dec_string(n: u64) -> (r: String)
    ensures
        r@.len() >= 1,
        all_dec_digits(r@),
        dec_value(r@) == n as int,
        r@.len() > 1 ==> r@[0] != '0',
    decreases n,
{
    let d: u64 = n % 10;
    let digit = dec_digit_char(d);
    if n < 10 {
        proof {
            assert(digit@.drop_last().len() == 0);
            assert(dec_value(digit@.drop_last()) == 0);
            assert(digit@.last() == digit@[0]);
            assert((n % 10) as int == n as int);
        }
        digit
    } else {
        let mut s = u64_to_dec_string(n / 10);
        let ghost prefix = s@;
        s.append(digit.as_str());
        proof {
            assert(s@.drop_last() =~= prefix);
            assert(s@.last() == digit@[0]);
            assert(dec_value(s@) == dec_value(prefix) * 10 + dec_digit(digit@[0]));
            assert(dec_value(prefix) == (n / 10) as int);
            assert(dec_digit(digit@[0]) == (n % 10) as int);
            assert(n as int == (n / 10) as int * 10 + (n % 10) as int);
            assert(s@[0] == prefix[0]);
            if prefix.len() == 1 {
                assert(prefix.drop_last().len() == 0);
                assert(dec_value(prefix.drop_last()) == 0);
                assert(dec_value(prefix) == dec_digit(prefix.last()));
                assert(prefix.last() == prefix[0]);
                assert(dec_digit(prefix[0]) >= 1);
                assert(prefix[0] != '0');
            }
        }
        s
    }
}

/// The one-character string of a digit value.
fn dec_digit_char(d: u64) -> (r: String)
    requires
        d < 10,
    ensures
        r@.len() == 1,
        is_dec_digit(r@[0]),
        dec_digit(r@[0]) == d as int,
{
    proof {
        reveal_strlit("0");
        reveal_strlit("1");
        reveal_strlit("2");
        reveal_strlit("3");
        reveal_strlit("4");
        reveal_strlit("5");
        reveal_strlit("6");
        reveal_strlit("7");
        reveal_strlit("8");
        reveal_strlit("9");
    }
    if d == 0 {
        String::from_str("0")
    } else if d == 1 {
        String::from_str("1")
    } else if d == 2 {
        String::from_str("2")
    } else if d == 3 {
        String::from_str("3")
    } else if d == 4 {
        String::from_str("4")
    } else if d == 5 {
        String::from_str("5")
    } else if d == 6 {
        String::from_str("6")
    } else if d == 7 {
        String::from_str("7")
    } else if d == 8 {
        String::from_str("8")
    } else {
        String::from_str("9")
    }
}

/// Writes an id as decimal text, the way node ids carry it: the digits of
/// its magnitude, with a minus sign in front when it is negative.
pub fn i64_to_dec_string(n: i64) -> (r: String)
    ensures
        n >= 0 ==> all_dec_digits(r@) && dec_value(r@) == n as int,
        n < 0 ==> r@.len() >= 2 && r@[0] == '-' && all_dec_digits(r@.skip(1)) && dec_value(
            r@.skip(1),
        ) == -(n as int),
{
    if n < 0 {
        proof {
            reveal_strlit("-");
        }
        let mut s = String::from_str("-");
        let ghost sign = s@;
        let mag_u: u64 = ((-(n + 1)) as u64) + 1;
        proof {
            assert(mag_u as int == -(n as int));
        }
        let mag = u64_to_dec_string(mag_u);
        s.append(mag.as_str());
        proof {
            assert(s@.skip(1) =~= mag@);
        }
        s
    } else {
        u64_to_dec_string(n as u64)
    }
}

} // verus!
