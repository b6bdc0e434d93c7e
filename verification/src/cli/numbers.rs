use crate::text::{all_digits, digits_value, is_digit};
use vstd::prelude::*;

verus! {

/// Text that `u64::from_str` accepts: an optional `+`, then one or more ASCII digits
/// whose value fits in 64 unsigned bits.
pub open spec fn is_u64_text(s: Seq<char>) -> bool {
    let digits = if s.len() > 0 && s[0] == '+' { s.skip(1) } else { s };
    &&& digits.len() > 0
    &&& all_digits(digits)
    &&& digits_value(digits) <= u64::MAX
}

/// Text that `i64::from_str` accepts: an optional `+` or `-`, then one or more ASCII
/// digits whose signed value fits in 64 bits.
pub open spec fn is_i64_text(s: Seq<char>) -> bool {
    let negative = s.len() > 0 && s[0] == '-';
    let digits = if s.len() > 0 && (s[0] == '+' || s[0] == '-') { s.skip(1) } else { s };
    &&& digits.len() > 0
    &&& all_digits(digits)
    &&& if negative { digits_value(digits) <= 0x8000_0000_0000_0000 } else { digits_value(digits) <= i64::MAX }
}

proof fn lemma_digits_value_step(s: Seq<char>, k: int)
    requires
        0 <= k < s.len(),
    ensures
        digits_value(s.take(k + 1)) == digits_value(s.take(k)) * 10 + ((s[k] as u32) - ('0' as u32)) as nat,
{
    assert(s.take(k + 1).drop_last() =~= s.take(k));
}

proof fn lemma_digits_value_grows(s: Seq<char>, k: int, m: int)
    requires
        0 <= k <= m <= s.len(),
        all_digits(s),
    ensures
        digits_value(s.take(k)) <= digits_value(s.take(m)),
    decreases m - k,
{
    if k < m {
        lemma_digits_value_grows(s, k, m - 1);
        lemma_digits_value_step(s, m - 1);
        assert(is_digit(s[m - 1]));
    }
}

/// Whether `s[start..]` is a non-empty run of digits of value at most `limit`.
fn digits_within(s: &Vec<char>, start: usize, limit: u64) -> (r: bool)
    requires
        start <= s.len(),
        limit >= 9,
    ensures
        r == {
            let d = s@.skip(start as int);
            d.len() > 0 && all_digits(d) && digits_value(d) <= limit
        },
{
    let ghost d = s@.skip(start as int);
    if start == s.len() {
        return false;
    }
    let mut acc: u64 = 0;
    let mut i: usize = start;
    assert(d.take(0) =~= seq![]);
    while i < s.len()
        invariant
            start <= i <= s.len(),
            d == s@.skip(start as int),
            all_digits(d.take(i - start)),
            acc == digits_value(d.take(i - start)),
            acc <= limit,
            limit >= 9,
        decreases s.len() - i,
    {
        let c = s[i];
        let code = c as u32;
        assert(d[i - start] == c);
        if code < ('0' as u32) || code > ('9' as u32) {
            assert(!is_digit(d[i - start]));
            return false;
        }
        let digit = (code - ('0' as u32)) as u64;
        proof {
            lemma_digits_value_step(d, i - start);
            assert(d.take(i - start + 1) =~= d.take(i - start).push(c));
        }
        if acc > (limit - digit) / 10 {
            proof {
                assert(acc * 10 + digit > limit) by (nonlinear_arith)
                    requires
                        acc > (limit - digit) / 10,
                        digit <= 9,
                        limit >= 9,
                ;
                if all_digits(d) {
                    lemma_digits_value_grows(d, i - start + 1, d.len() as int);
                    assert(d.take(d.len() as int) =~= d);
                }
            }
            return false;
        }
        proof {
            assert(acc * 10 + digit <= limit) by (nonlinear_arith)
                requires
                    acc <= (limit - digit) / 10,
                    digit <= limit,
            ;
        }
        acc = acc * 10 + digit;
        i = i + 1;
    }
    assert(d.take(i - start) =~= d);
    true
}

/// Whether the text is accepted by `u64::from_str`.
pub fn is_u64(s: &Vec<char>) -> (r: bool)
    ensures
        r == is_u64_text(s@),
{
    if s.len() > 0 && s[0] == '+' {
        digits_within(s, 1, u64::MAX)
    } else {
        assert(s@.skip(0) =~= s@);
        digits_within(s, 0, u64::MAX)
    }
}

/// Whether the text is accepted by `i64::from_str`.
pub fn is_i64(s: &Vec<char>) -> (r: bool)
    ensures
        r == is_i64_text(s@),
{
    if s.len() > 0 && s[0] == '-' {
        digits_within(s, 1, 0x8000_0000_0000_0000)
    } else if s.len() > 0 && s[0] == '+' {
        digits_within(s, 1, 0x7fff_ffff_ffff_ffff)
    } else {
        assert(s@.skip(0) =~= s@);
        digits_within(s, 0, 0x7fff_ffff_ffff_ffff)
    }
}

} // verus!
