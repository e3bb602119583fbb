use vstd::prelude::*;
use vstd::string::StrSliceExecFns;

verus! {

/// A decimal digit.
pub open spec fn is_digit(c: char) -> bool {
    48 <= c as int <= 57
}

/// The numeric value of one decimal digit.
pub open spec fn digit_value(c: char) -> int {
    c as int - 48
}

/// Every character of the sequence is a decimal digit.
pub open spec fn all_digits(s: Seq<char>) -> bool {
    forall|i: int| 0 <= i < s.len() ==> is_digit(#[trigger] s[i])
}

/// The value of a sequence of decimal digits, most significant first.
pub open spec fn digits_value(s: Seq<char>) -> int
    decreases s.len(),
{
    if s.len() == 0 {
        0
    } else {
        digits_value(s.drop_last()) * 10 + digit_value(s.last())
    }
}

/// The digit run of an unsigned decimal literal: everything after an
/// optional leading plus sign.
pub open spec fn literal_digits(s: Seq<char>) -> Seq<char> {
    if s.len() > 0 && s[0] == '+' {
        s.subrange(1, s.len() as int)
    } else {
        s
    }
}

/// The unsigned integer a string denotes: an optional leading plus sign,
/// then one or more decimal digits, whose value must fit the machine word.
/// Anything else denotes no integer at all.
pub open spec fn count_of_literal(s: Seq<char>) -> Option<usize> {
    let digits = literal_digits(s);
    if digits.len() > 0 && all_digits(digits) && digits_value(digits) <= usize::MAX {
        Some(digits_value(digits) as usize)
    } else {
        None
    }
}

proof fn lemma_digits_value_nonneg(s: Seq<char>)
    requires
        all_digits(s),
    ensures
        digits_value(s) >= 0,
    decreases s.len(),
{
    if s.len() > 0 {
        assert(all_digits(s.drop_last())) by {
            assert(forall|i: int|
                0 <= i < s.drop_last().len() ==> #[trigger] s.drop_last()[i] == s[i]);
        }
        lemma_digits_value_nonneg(s.drop_last());
    }
}

/// Extending a digit run to the right never shrinks its value.
proof fn lemma_digits_value_prefix_le(s: Seq<char>, i: int, j: int)
    requires
        all_digits(s),
        0 <= i <= j <= s.len(),
    ensures
        digits_value(s.subrange(0, i)) <= digits_value(s.subrange(0, j)),
    decreases j - i,
{
    if i < j {
        lemma_digits_value_prefix_le(s, i, j - 1);
        let p = s.subrange(0, j - 1);
        let q = s.subrange(0, j);
        assert(q.drop_last() =~= p);
        assert(q.last() == s[j - 1]);
        assert(all_digits(p)) by {
            assert(forall|k: int| 0 <= k < p.len() ==> #[trigger] p[k] == s[k]);
        }
        lemma_digits_value_nonneg(p);
        assert(digits_value(q) == digits_value(p) * 10 + digit_value(s[j - 1]));
        assert(digits_value(p) * 10 >= digits_value(p)) by (nonlinear_arith)
            requires digits_value(p) >= 0;
    }
}

/// Parses an unsigned decimal count, exactly as the standard library reads an
/// unsigned integer: an optional leading plus sign, then decimal digits.
pub fn parse_count(s: &str) -> (r: Option<usize>)
    ensures
        r == count_of_literal(s@),
{
    let n: usize = s.unicode_len();
    let mut start: usize = 0;
    if n > 0 && s.get_char(0) == '+' {
        start = 1;
    }
    let ghost digits: Seq<char> = literal_digits(s@);
    proof {
        if start == 0 {
            assert(digits == s@);
        }
        assert(digits =~= s@.subrange(start as int, n as int));
    }
    if start >= n {
        return None;
    }
    let mut value: usize = 0;
    let mut i: usize = start;
    while i < n
        invariant
            start <= i <= n,
            start < n,
            n == s@.len(),
            digits == literal_digits(s@),
            digits == s@.subrange(start as int, n as int),
            all_digits(s@.subrange(start as int, i as int)),
            value == digits_value(s@.subrange(start as int, i as int)),
        decreases n - i,
    {
        let c = s.get_char(i);
        let u: u32 = c as u32;
        let ghost prefix = s@.subrange(start as int, i as int);
        let ghost grown = s@.subrange(start as int, i as int + 1);
        proof {
            assert(u == c as int);
            assert(grown.drop_last() =~= prefix);
            assert(grown.last() == s@[i as int]);
        }
        if u < 48 || u > 57 {
            proof {
                assert(digits[i as int - start as int] == s@[i as int]);
                assert(!is_digit(digits[i as int - start as int]));
                assert(!all_digits(digits));
            }
            return None;
        }
        let d: usize = (u - 48) as usize;
        let wide: u128 = value as u128 * 10 + d as u128;
        proof {
            assert(all_digits(grown));
        }
        if wide > usize::MAX as u128 {
            proof {
                assert(digits_value(grown) > usize::MAX);
                if all_digits(digits) {
                    assert(grown =~= digits.subrange(0, i as int + 1 - start as int));
                    lemma_digits_value_prefix_le(
                        digits,
                        i as int + 1 - start as int,
                        digits.len() as int,
                    );
                    assert(digits.subrange(0, digits.len() as int) =~= digits);
                    assert(digits_value(digits) > usize::MAX);
                }
            }
            return None;
        }
        value = wide as usize;
        i = i + 1;
    }
    proof {
        assert(s@.subrange(start as int, i as int) =~= digits);
    }
    Some(value)
}

} // verus!
