//! Reading the target particle count from the numeric control.
//!
//! The control's text is parsed as a non-negative decimal integer, with an
//! optional leading plus sign, exactly as the host's standard parsing
//! accepts one. A missing control, an unparseable text, or a value beyond
//! the machine range all fall back to the default count of 10.

use vstd::prelude::*;

verus! {

/// Target count used when the control is missing or unparseable.
pub const DEFAULT_TARGET: usize = 10;

/// An ASCII decimal digit.
pub open spec fn is_digit(b: u8) -> bool {
    48 <= b <= 57
}

/// Every byte is an ASCII decimal digit.
pub open spec fn all_digits(s: Seq<u8>) -> bool {
    forall|i: int| 0 <= i < s.len() ==> is_digit(#[trigger] s[i])
}

/// The value of a digit string read in base ten.
pub open spec fn digits_value(s: Seq<u8>) -> nat
    decreases s.len(),
{
    if s.len() == 0 {
        0
    } else {
        (digits_value(s.drop_last()) * 10 + (s.last() - 48)) as nat
    }
}

/// The digits of the control text: everything after one optional leading
/// plus sign.
pub open spec fn digit_seq(s: Seq<u8>) -> Seq<u8> {
    if s.len() > 0 && s[0] == 43 {
        s.skip(1)
    } else {
        s
    }
}

/// Whether the control text parses as a machine-range count: at least one
/// digit, nothing but digits after the optional sign, and a value that fits.
pub open spec fn is_valid_count(s: Seq<u8>) -> bool {
    let d = digit_seq(s);
    d.len() > 0 && all_digits(d) && digits_value(d) <= usize::MAX as nat
}

/// The count a control text yields: its parsed value, or the default.
pub open spec fn count_of(s: Seq<u8>) -> nat {
    if is_valid_count(s) {
        digits_value(digit_seq(s))
    } else {
        DEFAULT_TARGET as nat
    }
}

/// Appending a digit multiplies the value by ten and adds the digit.
proof fn lemma_digits_value_push(s: Seq<u8>, b: u8)
    requires
        is_digit(b),
    ensures
        digits_value(s.push(b)) == digits_value(s) * 10 + (b - 48),
{
    assert(s.push(b).drop_last() =~= s);
    assert(s.push(b).last() == b);
}

/// On a digit string the value of any prefix is no greater than the whole.
proof fn lemma_digits_value_prefix_le(s: Seq<u8>, i: int)
    requires
        all_digits(s),
        0 <= i <= s.len(),
    ensures
        digits_value(s.take(i)) <= digits_value(s),
    decreases s.len(),
{
    if i == s.len() {
        assert(s.take(i) =~= s);
    } else {
        let t = s.drop_last();
        assert(all_digits(t));
        assert(s.take(i) =~= t.take(i));
        lemma_digits_value_prefix_le(t, i);
        assert(is_digit(s.last()));
        assert(digits_value(s) == digits_value(t) * 10 + (s.last() - 48));
    }
}

/// Reads the control's text as a target count; yields the parsed value, or
/// `DEFAULT_TARGET` where the control is missing, where the text is not a
/// decimal numeral, or where the value exceeds the machine range.
pub fn parse_target_count(raw: Option<&[u8]>) -> (t: usize)
    ensures
        match raw {
            Option::Some(s) => t as nat == count_of(s@),
            Option::None => t == DEFAULT_TARGET,
        },
{
    match raw {
        Option::None => DEFAULT_TARGET,
        Option::Some(s) => parse_count(s),
    }
}

/// Parses one control text.
pub fn parse_count(s: &[u8]) -> (t: usize)
    ensures
        t as nat == count_of(s@),
{
    let n: usize = s.len();
    let start: usize = if n > 0 && s[0] == 43 {
        1
    } else {
        0
    };
    let ghost d: Seq<u8> = digit_seq(s@);
    proof {
        assert(d =~= s@.skip(start as int));
    }
    if start == n {
        return DEFAULT_TARGET;
    }
    let mut acc: usize = 0;
    let mut i: usize = start;
    while i < n
        invariant
            start < n,
            start <= i <= n,
            n == s@.len(),
            d == digit_seq(s@),
            d == s@.skip(start as int),
            d.len() == n - start,
            all_digits(d.take(i - start)),
            acc as nat == digits_value(d.take(i - start)),
        decreases n - i,
    {
        let b: u8 = s[i];
        if b < 48 || b > 57 {
            proof {
                assert(!is_digit(d[i - start]));
            }
            return DEFAULT_TARGET;
        }
        let digit: usize = (b - 48) as usize;
        let ghost prefix: Seq<u8> = d.take(i - start);
        let ghost next: Seq<u8> = d.take(i + 1 - start);
        proof {
            assert(next =~= prefix.push(b));
            lemma_digits_value_push(prefix, b);
        }
        if acc > (usize::MAX - digit) / 10 {
            proof {
                assert(acc * 10 + digit > usize::MAX) by {
                    let m = (usize::MAX - digit) as int;
                    vstd::arithmetic::div_mod::lemma_fundamental_div_mod(m, 10);
                }
                assert(digits_value(next) > usize::MAX);
                assert(!is_valid_count(s@)) by {
                    if is_valid_count(s@) {
                        lemma_digits_value_prefix_le(d, i + 1 - start);
                    }
                }
            }
            return DEFAULT_TARGET;
        }
        proof {
            assert(acc * 10 + digit <= usize::MAX) by {
                let m = (usize::MAX - digit) as int;
                vstd::arithmetic::div_mod::lemma_fundamental_div_mod(m, 10);
            }
        }
        acc = acc * 10 + digit;
        i = i + 1;
    }
    proof {
        assert(d.take(n - start) =~= d);
        assert(is_valid_count(s@));
    }
    acc
}

} // verus!
