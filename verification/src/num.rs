//! Decimal coercion for numeric settings.
//!
//! A numeric setting taken from an explicit source (flag or environment
//! variable) must be a decimal unsigned integer — an optional leading `+`,
//! then one or more ASCII digits — whose value fits the field's width.
//! Anything else is a fatal configuration error.

use vstd::prelude::*;

verus! {

/// An ASCII decimal digit.
pub open spec fn is_dec_digit(c: char) -> bool {
    '0' <= c && c <= '9'
}

/// The numeric value of a digit; non-digits count as zero, which keeps
/// `dec_val` monotone over prefixes of arbitrary text.
pub open spec fn digit_val(c: char) -> nat {
    if is_dec_digit(c) {
        ((c as int) - ('0' as int)) as nat
    } else {
        0
    }
}

/// Every character of `s` is an ASCII decimal digit.
pub open spec fn all_digits(s: Seq<char>) -> bool {
    forall|i: int| 0 <= i < s.len() ==> is_dec_digit(#[trigger] s[i])
}

/// The value of `s` read as a base-10 numeral.
pub open spec fn dec_val(s: Seq<char>) -> nat
    decreases s.len(),
{
    if s.len() == 0 {
        0
    } else {
        dec_val(s.drop_last()) * 10 + digit_val(s.last())
    }
}

/// The digits of a numeral: everything after an optional leading `+`.
pub open spec fn digits_part(s: Seq<char>) -> Seq<char> {
    if s.len() > 0 && s[0] == '+' {
        s.drop_first()
    } else {
        s
    }
}

/// `s` is a well-formed unsigned decimal numeral: an optional leading `+`,
/// then at least one digit and nothing else.
pub open spec fn is_uint_str(s: Seq<char>) -> bool {
    digits_part(s).len() > 0 && all_digits(digits_part(s))
}

/// The value of a well-formed numeral.
pub open spec fn uint_val(s: Seq<char>) -> nat {
    dec_val(digits_part(s))
}

/// A numeral is at least as large as any of its prefixes: appending digits
/// can only grow the value.
proof fn lemma_dec_val_take_le(s: Seq<char>, j: int)
    requires
        0 <= j <= s.len(),
    ensures
        dec_val(s.take(j)) <= dec_val(s),
    decreases s.len() - j,
{
    if j < s.len() {
        assert(s.take(j + 1).drop_last() =~= s.take(j));
        assert(dec_val(s.take(j + 1)) == dec_val(s.take(j)) * 10 + digit_val(s[j]));
        assert(dec_val(s.take(j)) <= dec_val(s.take(j)) * 10) by (nonlinear_arith);
        lemma_dec_val_take_le(s, j + 1);
    } else {
        assert(s.take(j) =~= s);
    }
}

/// Parses `s` as an unsigned decimal numeral, refusing any value above
/// `max`. Returns the value exactly when `s` is a well-formed numeral whose
/// value is within bound; `None` on malformed text and on overflow alike.
pub fn parse_uint_upto(s: &str, max: u64) -> (r: Option<u64>)
    ensures
        r is Some <==> is_uint_str(s@) && uint_val(s@) <= max,
        r is Some ==> r->0 as nat == uint_val(s@),
{
    let n = s.unicode_len();
    let start: usize = if n > 0 && s.get_char(0) == '+' {
        1
    } else {
        0
    };
    if n == start {
        assert(digits_part(s@).len() == 0);
        return None;
    }
    assert(digits_part(s@) =~= s@.subrange(start as int, n as int));
    let ghost d = digits_part(s@);
    let mut acc: u64 = 0;
    let mut i: usize = start;
    while i < n
        invariant
            start <= i <= n,
            n == s@.len(),
            start == 0 || start == 1,
            d == digits_part(s@),
            d =~= s@.subrange(start as int, n as int),
            d.len() > 0,
            acc <= max,
            acc as nat == dec_val(d.take(i - start)),
            all_digits(d.take(i - start)),
        decreases n - i,
    {
        let c = s.get_char(i);
        let code = c as u32;
        if code < 48 || code > 57 {
            assert(!is_dec_digit(d[i - start]));
            assert(!all_digits(d));
            return None;
        }
        let digit = (code - 48) as u64;
        assert(is_dec_digit(d[i - start]));
        assert(digit as nat == digit_val(d[i - start]));
        assert(d.take(i - start + 1).drop_last() =~= d.take(i - start));
        assert(dec_val(d.take(i - start + 1)) == acc as nat * 10 + digit as nat);
        if acc > max / 10 || (acc == max / 10 && digit > max % 10) {
            proof {
                assert(acc as nat * 10 + digit as nat > max) by (nonlinear_arith)
                    requires
                        acc > max / 10 || (acc == max / 10 && digit > max % 10),
                        digit <= 9,
                ;
                lemma_dec_val_take_le(d, i - start + 1);
            }
            return None;
        }
        proof {
            assert(acc as nat * 10 + digit as nat <= max) by (nonlinear_arith)
                requires
                    acc <= max / 10,
                    acc == max / 10 ==> digit <= max % 10,
                    digit <= 9,
            ;
        }
        acc = acc * 10 + digit;
        i = i + 1;
    }
    assert(d.take(i - start) =~= d);
    Some(acc)
}

} // verus!
