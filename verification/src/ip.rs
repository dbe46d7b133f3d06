//! The bind address, modeled as plain octets and segments.
//!
//! The service binds either an IPv4 or an IPv6 address. Dotted-quad IPv4
//! text is parsed here against an exact grammar: four octets separated by
//! dots, each one to three digits with no leading zero and a value of at
//! most 255.

use vstd::prelude::*;

use crate::num::all_digits;
use crate::num::dec_val;
use crate::num::is_dec_digit;

verus! {

/// The address a service binds to, as plain numeric parts.
#[derive(Clone, Copy, Debug, PartialEq, Eq, Structural)]
pub enum BindAddr {
    /// An IPv4 address, one field per octet.
    V4(u8, u8, u8, u8),
    /// An IPv6 address, one field per 16-bit segment.
    V6(u16, u16, u16, u16, u16, u16, u16, u16),
}

impl BindAddr {
    /// The all-interfaces IPv4 address, `0.0.0.0`.
    pub fn any_v4() -> (b: BindAddr)
        ensures
            b == BindAddr::V4(0u8, 0u8, 0u8, 0u8),
    {
        BindAddr::V4(0, 0, 0, 0)
    }
}

/// A dotted-quad octet: one to three digits, no leading zero on a
/// multi-digit octet, value at most 255.
pub open spec fn is_octet(s: Seq<char>) -> bool {
    &&& 1 <= s.len() <= 3
    &&& all_digits(s)
    &&& (s.len() > 1 ==> s[0] != '0')
    &&& dec_val(s) <= 255
}

/// `i < j < k` are dot positions splitting `s` into four octets.
pub open spec fn ipv4_split_at(s: Seq<char>, i: int, j: int, k: int) -> bool {
    &&& 0 <= i < j < k < s.len()
    &&& s[i] == '.'
    &&& s[j] == '.'
    &&& s[k] == '.'
    &&& is_octet(s.subrange(0, i))
    &&& is_octet(s.subrange(i + 1, j))
    &&& is_octet(s.subrange(j + 1, k))
    &&& is_octet(s.subrange(k + 1, s.len() as int))
}

/// `s` is dotted-quad IPv4 text.
pub open spec fn is_ipv4(s: Seq<char>) -> bool {
    exists|i: int, j: int, k: int| ipv4_split_at(s, i, j, k)
}

/// The four octet values of dotted-quad text, read off its (unique) split.
pub open spec fn ipv4_octets(s: Seq<char>) -> (nat, nat, nat, nat) {
    let (i, j, k) = choose|i: int, j: int, k: int| ipv4_split_at(s, i, j, k);
    (
        dec_val(s.subrange(0, i)),
        dec_val(s.subrange(i + 1, j)),
        dec_val(s.subrange(j + 1, k)),
        dec_val(s.subrange(k + 1, s.len() as int)),
    )
}

/// In a dotted-quad split, every position other than the three dots holds
/// a digit: the four octets cover the rest of the text.
proof fn lemma_split_rest_digits(s: Seq<char>, i: int, j: int, k: int)
    requires
        ipv4_split_at(s, i, j, k),
    ensures
        forall|m: int|
            0 <= m < s.len() && m != i && m != j && m != k ==> is_dec_digit(#[trigger] s[m]),
{
    assert forall|m: int|
        0 <= m < s.len() && m != i && m != j && m != k implies is_dec_digit(s[m]) by {
        if m < i {
            assert(s.subrange(0, i)[m] == s[m]);
        } else if m < j {
            assert(s.subrange(i + 1, j)[m - (i + 1)] == s[m]);
        } else if m < k {
            assert(s.subrange(j + 1, k)[m - (j + 1)] == s[m]);
        } else {
            assert(s.subrange(k + 1, s.len() as int)[m - (k + 1)] == s[m]);
        }
    }
}

/// A dotted-quad split is unique: the three dots are the only dots in the
/// text, so any two splits name the same positions.
proof fn lemma_split_unique(s: Seq<char>, i1: int, j1: int, k1: int, i2: int, j2: int, k2: int)
    requires
        ipv4_split_at(s, i1, j1, k1),
        ipv4_split_at(s, i2, j2, k2),
    ensures
        i1 == i2,
        j1 == j2,
        k1 == k2,
{
    lemma_split_rest_digits(s, i1, j1, k1);
    lemma_split_rest_digits(s, i2, j2, k2);
    assert(!is_dec_digit('.'));
}

/// Parses one segment of dotted-quad text, the characters of `s` from
/// `from` (inclusive) to `to` (exclusive), as an octet.
fn parse_octet(s: &str, from: usize, to: usize) -> (r: Option<u8>)
    requires
        from <= to <= s@.len(),
    ensures
        r is Some <==> is_octet(s@.subrange(from as int, to as int)),
        r is Some ==> r->0 as nat == dec_val(s@.subrange(from as int, to as int)),
{
    let ghost seg = s@.subrange(from as int, to as int);
    let len = to - from;
    if len < 1 || len > 3 {
        return None;
    }
    proof {
        assert(seg.take(1).drop_last() =~= Seq::<char>::empty());
        assert(dec_val(Seq::<char>::empty()) == 0);
        if len >= 2 {
            assert(seg.take(2).drop_last() =~= seg.take(1));
        }
        if len == 3 {
            assert(seg.take(3).drop_last() =~= seg.take(2));
        }
        assert(seg.take(len as int) =~= seg);
    }
    let c0 = s.get_char(from) as u32;
    if c0 < 48 || c0 > 57 {
        assert(!is_dec_digit(seg[0]));
        return None;
    }
    let d0 = c0 - 48;
    assert(dec_val(seg.take(1)) == d0);
    if len == 1 {
        assert(dec_val(seg) == d0);
        return Some(d0 as u8);
    }
    if d0 == 0 {
        assert(seg[0] == '0');
        return None;
    }
    let c1 = s.get_char(from + 1) as u32;
    if c1 < 48 || c1 > 57 {
        assert(!is_dec_digit(seg[1]));
        return None;
    }
    let d1 = c1 - 48;
    assert(seg.take(2).last() == seg[1]);
    assert(dec_val(seg.take(2)) == d0 * 10 + d1);
    if len == 2 {
        assert(dec_val(seg) == d0 * 10 + d1);
        return Some((d0 * 10 + d1) as u8);
    }
    let c2 = s.get_char(from + 2) as u32;
    if c2 < 48 || c2 > 57 {
        assert(!is_dec_digit(seg[2]));
        return None;
    }
    let d2 = c2 - 48;
    assert(seg.take(3).last() == seg[2]);
    assert(dec_val(seg.take(3)) == (d0 * 10 + d1) * 10 + d2);
    let value = d0 * 100 + d1 * 10 + d2;
    assert(dec_val(seg) == value);
    if value > 255 {
        return None;
    }
    Some(value as u8)
}

/// Parses dotted-quad IPv4 text, returning its four octets exactly when
/// `s` matches the grammar.
pub fn parse_ipv4(s: &str) -> (r: Option<BindAddr>)
    ensures
        r is Some <==> is_ipv4(s@),
        r is Some ==> ({
            let (a, b, c, d) = ipv4_octets(s@);
            r->0 == BindAddr::V4(a as u8, b as u8, c as u8, d as u8)
        }),
{
    let n = s.unicode_len();
    let mut dots: Vec<usize> = Vec::new();
    let mut i: usize = 0;
    while i < n
        invariant
            0 <= i <= n,
            n == s@.len(),
            forall|t: int|
                0 <= t < dots@.len() ==> #[trigger] dots@[t] < i && s@[dots@[t] as int] == '.',
            forall|m: int|
                0 <= m < i && s@[m] == '.' ==> exists|t: int|
                    0 <= t < dots@.len() && #[trigger] dots@[t] as int == m,
            forall|t1: int, t2: int|
                0 <= t1 < t2 < dots@.len() ==> #[trigger] dots@[t1] < #[trigger] dots@[t2],
        decreases n - i,
    {
        let ghost prev = dots@;
        let c = s.get_char(i);
        if c == '.' {
            dots.push(i);
        }
        i = i + 1;
        proof {
            assert forall|m: int| 0 <= m < i && s@[m] == '.' implies exists|t: int|
                0 <= t < dots@.len() && #[trigger] dots@[t] as int == m by {
                if m < i - 1 {
                    let t = choose|t: int| 0 <= t < prev.len() && #[trigger] prev[t] as int == m;
                    assert(dots@[t] as int == m);
                } else {
                    assert(dots@[dots@.len() - 1] as int == m);
                }
            }
        }
    }
    if dots.len() != 3 {
        proof {
            if is_ipv4(s@) {
                let (a, b, c) = choose|a: int, b: int, c: int| ipv4_split_at(s@, a, b, c);
                lemma_split_rest_digits(s@, a, b, c);
                assert(!is_dec_digit('.'));
                if dots@.len() < 3 {
                    let ta = choose|t: int| 0 <= t < dots@.len() && dots@[t] as int == a;
                    let tb = choose|t: int| 0 <= t < dots@.len() && dots@[t] as int == b;
                    let tc = choose|t: int| 0 <= t < dots@.len() && dots@[t] as int == c;
                    assert(0 <= ta < dots@.len() && dots@[ta] as int == a);
                    assert(0 <= tb < dots@.len() && dots@[tb] as int == b);
                    assert(0 <= tc < dots@.len() && dots@[tc] as int == c);
                    assert(false);
                } else {
                    assert(dots@[0] as int == a || dots@[0] as int == b || dots@[0] as int == c);
                    assert(dots@[1] as int == a || dots@[1] as int == b || dots@[1] as int == c);
                    assert(dots@[2] as int == a || dots@[2] as int == b || dots@[2] as int == c);
                    assert(dots@[3] as int == a || dots@[3] as int == b || dots@[3] as int == c);
                    assert(dots@[0] < dots@[1] < dots@[2] < dots@[3]);
                    assert(false);
                }
            }
        }
        return None;
    }
    let p1 = dots[0];
    let p2 = dots[1];
    let p3 = dots[2];
    assert(dots@[0] < dots@[1] && dots@[1] < dots@[2]);
    assert(s@[p1 as int] == '.' && s@[p2 as int] == '.' && s@[p3 as int] == '.');
    assert(0 <= p1 < p2 < p3 < n);
    let r0 = parse_octet(s, 0, p1);
    let r1 = parse_octet(s, p1 + 1, p2);
    let r2 = parse_octet(s, p2 + 1, p3);
    let r3 = parse_octet(s, p3 + 1, n);
    match (r0, r1, r2, r3) {
        (Some(a), Some(b), Some(c), Some(d)) => {
            proof {
                assert(ipv4_split_at(s@, p1 as int, p2 as int, p3 as int));
                assert(is_ipv4(s@));
                let (x, y, z) = choose|x: int, y: int, z: int| ipv4_split_at(s@, x, y, z);
                lemma_split_unique(s@, x, y, z, p1 as int, p2 as int, p3 as int);
            }
            Some(BindAddr::V4(a, b, c, d))
        },
        _ => {
            proof {
                if is_ipv4(s@) {
                    let (x, y, z) = choose|x: int, y: int, z: int| ipv4_split_at(s@, x, y, z);
                    lemma_split_rest_digits(s@, x, y, z);
                    assert(!is_dec_digit('.'));
                    assert(x == p1 as int && y == p2 as int && z == p3 as int);
                    assert(false);
                }
            }
            None
        },
    }
}

} // verus!
