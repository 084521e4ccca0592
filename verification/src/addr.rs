//! Literal IPv4 addresses.
//!
//! DNS override and fallback entries are textual IP literals.  This module
//! models an address as four plain octets and proves a parser exact against
//! the literal grammar: four decimal octets, each `0..=255` without leading
//! zeros, separated by dots.

use vstd::prelude::*;

verus! {

/// An IPv4 address as four plain octets.
#[derive(Clone, Copy, PartialEq, Eq, Structural, Debug)]
pub struct Ipv4 {
    pub a: u8,
    pub b: u8,
    pub c: u8,
    pub d: u8,
}

/// A decimal digit character.
pub open spec fn is_digit(c: char) -> bool {
    48 <= c as int <= 57
}

/// The character of one decimal digit.
pub open spec fn digit_char(n: int) -> char {
    ((48 + n) as u8) as char
}

/// The canonical decimal text of `0 <= n <= 255`: no leading zeros.
pub open spec fn dec_text(n: int) -> Seq<char> {
    if n < 10 {
        seq![digit_char(n)]
    } else if n < 100 {
        seq![digit_char(n / 10), digit_char(n % 10)]
    } else {
        seq![digit_char(n / 100), digit_char((n / 10) % 10), digit_char(n % 10)]
    }
}

/// The text of an IPv4 literal: four dotted decimal octets.
pub open spec fn ipv4_text(ip: Ipv4) -> Seq<char> {
    dec_text(ip.a as int) + seq!['.'] + dec_text(ip.b as int) + seq!['.'] + dec_text(
        ip.c as int,
    ) + seq!['.'] + dec_text(ip.d as int)
}

/// Whether `s` is the literal text of some IPv4 address.
pub open spec fn is_ipv4_literal(s: Seq<char>) -> bool {
    exists|ip: Ipv4| s == ipv4_text(ip)
}

/// The address an IPv4 literal denotes.
pub open spec fn ipv4_of(s: Seq<char>) -> Ipv4 {
    choose|ip: Ipv4| s == ipv4_text(ip)
}

/// A maximal decimal octet with value `v` stands at position `i` of `s`:
/// its text is there, and no further digit follows it.
pub open spec fn octet_at(s: Seq<char>, i: int, v: u8) -> bool {
    let l = dec_text(v as int).len() as int;
    &&& i + l <= s.len()
    &&& s.subrange(i, i + l) == dec_text(v as int)
    &&& (i + l == s.len() || !is_digit(s[i + l]))
}

proof fn lemma_dec_text_shape(v: u8)
    ensures
        v < 10 ==> dec_text(v as int) =~= seq![digit_char(v as int)],
        10 <= v < 100 ==> dec_text(v as int) =~= seq![
            digit_char(v as int / 10),
            digit_char(v as int % 10),
        ],
        100 <= v ==> dec_text(v as int) =~= seq![
            digit_char(v as int / 100),
            digit_char((v as int / 10) % 10),
            digit_char(v as int % 10),
        ],
        1 <= dec_text(v as int).len() <= 3,
        forall|i: int|
            0 <= i < dec_text(v as int).len() ==> #[trigger] is_digit(dec_text(v as int)[i]),
        dec_text(v as int).len() >= 2 ==> dec_text(v as int)[0] != digit_char(0),
        dec_text(v as int).len() == 1 ==> v < 10,
        dec_text(v as int).len() == 2 ==> 10 <= v < 100,
        dec_text(v as int).len() == 3 ==> 100 <= v,
{
    let n = v as int;
    if n < 10 {
        assert(digit_char(n) as int == 48 + n);
    } else if n < 100 {
        vstd::arithmetic::div_mod::lemma_fundamental_div_mod(n, 10);
        assert(1 <= n / 10 <= 9 && 0 <= n % 10 <= 9);
        assert(digit_char(n / 10) as int == 48 + n / 10);
        assert(digit_char(n % 10) as int == 48 + n % 10);
    } else {
        vstd::arithmetic::div_mod::lemma_fundamental_div_mod(n, 10);
        vstd::arithmetic::div_mod::lemma_fundamental_div_mod(n / 10, 10);
        vstd::arithmetic::div_mod::lemma_div_denominator(n, 10, 10);
        assert(1 <= n / 100 <= 9 && 0 <= (n / 10) % 10 <= 9 && 0 <= n % 10 <= 9);
        assert(digit_char(n / 100) as int == 48 + n / 100);
        assert(digit_char((n / 10) % 10) as int == 48 + (n / 10) % 10);
        assert(digit_char(n % 10) as int == 48 + n % 10);
    }
}

/// The decimal text determines its value.
proof fn lemma_dec_text_injective(v: u8, w: u8)
    requires
        dec_text(v as int) == dec_text(w as int),
    ensures
        v == w,
{
    lemma_dec_text_shape(v);
    lemma_dec_text_shape(w);
    let n = v as int;
    let m = w as int;
    let sv = dec_text(n);
    let sw = dec_text(m);
    if sv.len() == 1 {
        assert(sv[0] == digit_char(n) && sw[0] == digit_char(m));
        assert(digit_char(n) as int == 48 + n && digit_char(m) as int == 48 + m);
    } else if sv.len() == 2 {
        vstd::arithmetic::div_mod::lemma_fundamental_div_mod(n, 10);
        vstd::arithmetic::div_mod::lemma_fundamental_div_mod(m, 10);
        assert(sv[0] == digit_char(n / 10) && sv[1] == digit_char(n % 10));
        assert(sw[0] == digit_char(m / 10) && sw[1] == digit_char(m % 10));
        assert(digit_char(n / 10) as int == 48 + n / 10 && digit_char(m / 10) as int == 48 + m
            / 10);
        assert(digit_char(n % 10) as int == 48 + n % 10 && digit_char(m % 10) as int == 48 + m
            % 10);
    } else {
        vstd::arithmetic::div_mod::lemma_fundamental_div_mod(n, 10);
        vstd::arithmetic::div_mod::lemma_fundamental_div_mod(n / 10, 10);
        vstd::arithmetic::div_mod::lemma_div_denominator(n, 10, 10);
        vstd::arithmetic::div_mod::lemma_fundamental_div_mod(m, 10);
        vstd::arithmetic::div_mod::lemma_fundamental_div_mod(m / 10, 10);
        vstd::arithmetic::div_mod::lemma_div_denominator(m, 10, 10);
        assert(sv[0] == digit_char(n / 100) && sv[1] == digit_char((n / 10) % 10) && sv[2]
            == digit_char(n % 10));
        assert(sw[0] == digit_char(m / 100) && sw[1] == digit_char((m / 10) % 10) && sw[2]
            == digit_char(m % 10));
        assert(digit_char(n / 100) as int == 48 + n / 100 && digit_char(m / 100) as int == 48 + m
            / 100);
        assert(digit_char((n / 10) % 10) as int == 48 + (n / 10) % 10 && digit_char((m / 10) % 10)
            as int == 48 + (m / 10) % 10);
        assert(digit_char(n % 10) as int == 48 + n % 10 && digit_char(m % 10) as int == 48 + m
            % 10);
    }
}

/// Two maximal octets at one position are the same octet.
proof fn lemma_octet_at_unique(s: Seq<char>, i: int, v: u8, w: u8)
    requires
        0 <= i,
        octet_at(s, i, v),
        octet_at(s, i, w),
    ensures
        v == w,
{
    let lv = dec_text(v as int).len() as int;
    let lw = dec_text(w as int).len() as int;
    lemma_dec_text_shape(v);
    lemma_dec_text_shape(w);
    if lv < lw {
        assert(s.subrange(i, i + lw)[lv] == s[i + lv]);
        assert(is_digit(dec_text(w as int)[lv]));
        assert(s.subrange(i, i + lv).len() == lv);
        assert(false);
    } else if lw < lv {
        assert(s.subrange(i, i + lv)[lw] == s[i + lw]);
        assert(is_digit(dec_text(v as int)[lw]));
        assert(false);
    } else {
        lemma_dec_text_injective(v, w);
    }
}

/// Whether position `i` of `s` holds a digit (false at or past the end).
fn digit_at(s: &str, i: usize, len: usize) -> (r: bool)
    requires
        len == s@.len(),
        i <= len,
    ensures
        r == (i < s@.len() && is_digit(s@[i as int])),
{
    if i < len {
        let c = s.get_char(i);
        (c as u32) >= 48 && (c as u32) <= 57
    } else {
        false
    }
}

/// Scans the maximal decimal octet starting at `start`; yields its value
/// and the position just past it.
fn parse_octet(s: &str, start: usize, len: usize) -> (r: Option<(u8, usize)>)
    requires
        len == s@.len(),
        start <= len,
    ensures
        match r {
            Some(p) => octet_at(s@, start as int, p.0) && p.1 == start + dec_text(
                p.0 as int,
            ).len(),
            None => forall|v: u8| !octet_at(s@, start as int, v),
        },
{
    if !digit_at(s, start, len) {
        proof {
            assert forall|v: u8| !octet_at(s@, start as int, v) by {
                if octet_at(s@, start as int, v) {
                    lemma_dec_text_shape(v);
                    let l = dec_text(v as int).len() as int;
                    assert(s@.subrange(start as int, start as int + l)[0] == s@[start as int]);
                    assert(is_digit(dec_text(v as int)[0]));
                    assert(false);
                }
            }
        }
        return None;
    }
    let c0 = s.get_char(start);
    let d0: u32 = c0 as u32 - 48;
    if !digit_at(s, start + 1, len) {
        let val: u8 = d0 as u8;
        proof {
            lemma_dec_text_shape(val);
            assert(digit_char(val as int) as int == 48 + val);
            assert(s@.subrange(start as int, start as int + 1) =~= dec_text(val as int));
        }
        return Some((val, start + 1));
    }
    if d0 == 0 {
        proof {
            assert forall|v: u8| !octet_at(s@, start as int, v) by {
                if octet_at(s@, start as int, v) {
                    lemma_dec_text_shape(v);
                    let l = dec_text(v as int).len() as int;
                    assert(s@.subrange(start as int, start as int + l)[0] == s@[start as int]);
                    if l == 1 {
                        // a one-digit octet must not be followed by a digit
                        assert(is_digit(s@[start as int + 1]));
                        assert(false);
                    } else {
                        // a longer octet never starts with the zero digit
                        assert(dec_text(v as int)[0] != digit_char(0));
                        assert(digit_char(0) as int == 48);
                        assert(false);
                    }
                }
            }
        }
        return None;
    }
    let c1 = s.get_char(start + 1);
    let d1: u32 = c1 as u32 - 48;
    if !digit_at(s, start + 2, len) {
        let val: u8 = (d0 * 10 + d1) as u8;
        proof {
            vstd::arithmetic::div_mod::lemma_fundamental_div_mod_converse(
                val as int,
                10,
                d0 as int,
                d1 as int,
            );
            lemma_dec_text_shape(val);
            assert(digit_char(val as int / 10) as int == 48 + d0);
            assert(digit_char(val as int % 10) as int == 48 + d1);
            assert(s@.subrange(start as int, start as int + 2) =~= dec_text(val as int));
        }
        return Some((val, start + 2));
    }
    let c2 = s.get_char(start + 2);
    let d2: u32 = c2 as u32 - 48;
    if digit_at(s, start + 3, len) {
        proof {
            assert forall|v: u8| !octet_at(s@, start as int, v) by {
                if octet_at(s@, start as int, v) {
                    lemma_dec_text_shape(v);
                    let l = dec_text(v as int).len() as int;
                    // positions start+1 .. start+3 all hold digits, so no
                    // octet of length at most 3 can end maximally here
                    assert(is_digit(s@[start as int + l]));
                    assert(false);
                }
            }
        }
        return None;
    }
    let val32: u32 = d0 * 100 + d1 * 10 + d2;
    if val32 > 255 {
        proof {
            assert forall|v: u8| !octet_at(s@, start as int, v) by {
                if octet_at(s@, start as int, v) {
                    lemma_dec_text_shape(v);
                    let l = dec_text(v as int).len() as int;
                    if l < 3 {
                        assert(is_digit(s@[start as int + l]));
                        assert(false);
                    } else {
                        let n = v as int;
                        vstd::arithmetic::div_mod::lemma_fundamental_div_mod(n, 10);
                        vstd::arithmetic::div_mod::lemma_fundamental_div_mod(n / 10, 10);
                        vstd::arithmetic::div_mod::lemma_div_denominator(n, 10, 10);
                        assert(s@.subrange(start as int, start as int + 3)[0] == s@[start as int]);
                        assert(s@.subrange(start as int, start as int + 3)[1] == s@[start as int
                            + 1]);
                        assert(s@.subrange(start as int, start as int + 3)[2] == s@[start as int
                            + 2]);
                        assert(digit_char(n / 100) as int == 48 + n / 100);
                        assert(digit_char((n / 10) % 10) as int == 48 + (n / 10) % 10);
                        assert(digit_char(n % 10) as int == 48 + n % 10);
                        assert(n / 100 == d0 && (n / 10) % 10 == d1 && n % 10 == d2);
                        assert(n == 100 * (d0 as int) + 10 * (d1 as int) + d2 as int);
                        assert(false);
                    }
                }
            }
        }
        return None;
    }
    let val: u8 = val32 as u8;
    proof {
        vstd::arithmetic::div_mod::lemma_fundamental_div_mod_converse(
            val as int,
            100,
            d0 as int,
            (10 * d1 + d2) as int,
        );
        vstd::arithmetic::div_mod::lemma_fundamental_div_mod_converse(
            val as int % 100,
            10,
            d1 as int,
            d2 as int,
        );
        vstd::arithmetic::div_mod::lemma_fundamental_div_mod(val as int, 10);
        vstd::arithmetic::div_mod::lemma_fundamental_div_mod(val as int / 10, 10);
        vstd::arithmetic::div_mod::lemma_div_denominator(val as int, 10, 10);
        lemma_dec_text_shape(val);
        assert(digit_char(val as int / 100) as int == 48 + d0);
        assert(digit_char((val as int / 10) % 10) as int == 48 + d1);
        assert(digit_char(val as int % 10) as int == 48 + d2);
        assert(s@.subrange(start as int, start as int + 3) =~= dec_text(val as int));
    }
    Some((val, start + 3))
}

/// The text of an IPv4 literal decomposes into four maximal octets with
/// dots between them.
proof fn lemma_ipv4_text_parts(ip: Ipv4, s: Seq<char>)
    requires
        s == ipv4_text(ip),
    ensures
        octet_at(s, 0, ip.a),
        ({
            let la = dec_text(ip.a as int).len() as int;
            &&& s[la] == '.'
            &&& octet_at(s, la + 1, ip.b)
        }),
        ({
            let la = dec_text(ip.a as int).len() as int;
            let lb = dec_text(ip.b as int).len() as int;
            &&& s[la + 1 + lb] == '.'
            &&& octet_at(s, la + 1 + lb + 1, ip.c)
        }),
        ({
            let la = dec_text(ip.a as int).len() as int;
            let lb = dec_text(ip.b as int).len() as int;
            let lc = dec_text(ip.c as int).len() as int;
            &&& s[la + 1 + lb + 1 + lc] == '.'
            &&& octet_at(s, la + 1 + lb + 1 + lc + 1, ip.d)
        }),
        s.len() == dec_text(ip.a as int).len() + dec_text(ip.b as int).len() + dec_text(
            ip.c as int,
        ).len() + dec_text(ip.d as int).len() + 3,
{
    lemma_dec_text_shape(ip.a);
    lemma_dec_text_shape(ip.b);
    lemma_dec_text_shape(ip.c);
    lemma_dec_text_shape(ip.d);
    let ta = dec_text(ip.a as int);
    let tb = dec_text(ip.b as int);
    let tc = dec_text(ip.c as int);
    let td = dec_text(ip.d as int);
    let la = ta.len() as int;
    let lb = tb.len() as int;
    let lc = tc.len() as int;
    let ld = td.len() as int;
    assert(!is_digit('.'));
    assert(s.subrange(0, la) =~= ta);
    assert(s.subrange(la + 1, la + 1 + lb) =~= tb);
    assert(s.subrange(la + 1 + lb + 1, la + 1 + lb + 1 + lc) =~= tc);
    assert(s.subrange(la + 1 + lb + 1 + lc + 1, la + 1 + lb + 1 + lc + 1 + ld) =~= td);
}

/// Four maximal octets with dots between them, filling all of `s`, compose
/// the text of the IPv4 literal.
proof fn lemma_ipv4_text_compose(s: Seq<char>, ip: Ipv4)
    requires
        octet_at(s, 0, ip.a),
        ({
            let la = dec_text(ip.a as int).len() as int;
            &&& la < s.len() && s[la] == '.'
            &&& octet_at(s, la + 1, ip.b)
        }),
        ({
            let la = dec_text(ip.a as int).len() as int;
            let lb = dec_text(ip.b as int).len() as int;
            &&& la + 1 + lb < s.len() && s[la + 1 + lb] == '.'
            &&& octet_at(s, la + 1 + lb + 1, ip.c)
        }),
        ({
            let la = dec_text(ip.a as int).len() as int;
            let lb = dec_text(ip.b as int).len() as int;
            let lc = dec_text(ip.c as int).len() as int;
            &&& la + 1 + lb + 1 + lc < s.len() && s[la + 1 + lb + 1 + lc] == '.'
            &&& octet_at(s, la + 1 + lb + 1 + lc + 1, ip.d)
        }),
        s.len() == dec_text(ip.a as int).len() + dec_text(ip.b as int).len() + dec_text(
            ip.c as int,
        ).len() + dec_text(ip.d as int).len() + 3,
    ensures
        s == ipv4_text(ip),
{
    let ta = dec_text(ip.a as int);
    let tb = dec_text(ip.b as int);
    let tc = dec_text(ip.c as int);
    let td = dec_text(ip.d as int);
    let la = ta.len() as int;
    let lb = tb.len() as int;
    let lc = tc.len() as int;
    let ld = td.len() as int;
    assert forall|i: int| 0 <= i < s.len() implies s[i] == ipv4_text(ip)[i] by {
        if i < la {
            assert(s.subrange(0, la)[i] == s[i]);
        } else if i == la {
        } else if i < la + 1 + lb {
            assert(s.subrange(la + 1, la + 1 + lb)[i - (la + 1)] == s[i]);
        } else if i == la + 1 + lb {
        } else if i < la + 1 + lb + 1 + lc {
            assert(s.subrange(la + 1 + lb + 1, la + 1 + lb + 1 + lc)[i - (la + 1 + lb + 1)]
                == s[i]);
        } else if i == la + 1 + lb + 1 + lc {
        } else {
            assert(s.subrange(la + 1 + lb + 1 + lc + 1, la + 1 + lb + 1 + lc + 1 + ld)[i - (la + 1
                + lb + 1 + lc + 1)] == s[i]);
        }
    }
    assert(s =~= ipv4_text(ip));
}

/// The text of an IPv4 literal determines the address.
pub proof fn lemma_ipv4_text_injective(v: Ipv4, w: Ipv4)
    requires
        ipv4_text(v) == ipv4_text(w),
    ensures
        v == w,
{
    let s = ipv4_text(v);
    lemma_ipv4_text_parts(v, s);
    lemma_ipv4_text_parts(w, s);
    lemma_octet_at_unique(s, 0, v.a, w.a);
    let la = dec_text(v.a as int).len() as int;
    lemma_octet_at_unique(s, la + 1, v.b, w.b);
    let lb = dec_text(v.b as int).len() as int;
    lemma_octet_at_unique(s, la + 1 + lb + 1, v.c, w.c);
    let lc = dec_text(v.c as int).len() as int;
    lemma_octet_at_unique(s, la + 1 + lb + 1 + lc + 1, v.d, w.d);
}

/// A valid literal denotes the address it was printed from.
pub proof fn lemma_ipv4_of(s: Seq<char>, ip: Ipv4)
    requires
        s == ipv4_text(ip),
    ensures
        ipv4_of(s) == ip,
{
    assert(exists|w: Ipv4| s == ipv4_text(w));
    let w = ipv4_of(s);
    assert(s == ipv4_text(w));
    lemma_ipv4_text_injective(ip, w);
}

/// Parses a literal IPv4 address; accepts exactly the texts of the grammar.
pub fn parse_ipv4(s: &str) -> (r: Option<Ipv4>)
    ensures
        match r {
            Some(ip) => s@ == ipv4_text(ip) && is_ipv4_literal(s@),
            None => !is_ipv4_literal(s@),
        },
{
    let len = s.unicode_len();
    let o0 = parse_octet(s, 0, len);
    let (a, p1) = match o0 {
        Some(p) => p,
        None => {
            proof {
                assert forall|ip: Ipv4| s@ != ipv4_text(ip) by {
                    if s@ == ipv4_text(ip) {
                        lemma_ipv4_text_parts(ip, s@);
                        assert(false);
                    }
                }
            }
            return None;
        },
    };
    if p1 >= len || s.get_char(p1) != '.' {
        proof {
            assert forall|ip: Ipv4| s@ != ipv4_text(ip) by {
                if s@ == ipv4_text(ip) {
                    lemma_ipv4_text_parts(ip, s@);
                    lemma_octet_at_unique(s@, 0, a, ip.a);
                    assert(false);
                }
            }
        }
        return None;
    }
    let o1 = parse_octet(s, p1 + 1, len);
    let (b, p2) = match o1 {
        Some(p) => p,
        None => {
            proof {
                assert forall|ip: Ipv4| s@ != ipv4_text(ip) by {
                    if s@ == ipv4_text(ip) {
                        lemma_ipv4_text_parts(ip, s@);
                        lemma_octet_at_unique(s@, 0, a, ip.a);
                        assert(false);
                    }
                }
            }
            return None;
        },
    };
    if p2 >= len || s.get_char(p2) != '.' {
        proof {
            assert forall|ip: Ipv4| s@ != ipv4_text(ip) by {
                if s@ == ipv4_text(ip) {
                    lemma_ipv4_text_parts(ip, s@);
                    lemma_octet_at_unique(s@, 0, a, ip.a);
                    lemma_octet_at_unique(s@, p1 as int + 1, b, ip.b);
                    assert(false);
                }
            }
        }
        return None;
    }
    let o2 = parse_octet(s, p2 + 1, len);
    let (c, p3) = match o2 {
        Some(p) => p,
        None => {
            proof {
                assert forall|ip: Ipv4| s@ != ipv4_text(ip) by {
                    if s@ == ipv4_text(ip) {
                        lemma_ipv4_text_parts(ip, s@);
                        lemma_octet_at_unique(s@, 0, a, ip.a);
                        lemma_octet_at_unique(s@, p1 as int + 1, b, ip.b);
                        assert(false);
                    }
                }
            }
            return None;
        },
    };
    if p3 >= len || s.get_char(p3) != '.' {
        proof {
            assert forall|ip: Ipv4| s@ != ipv4_text(ip) by {
                if s@ == ipv4_text(ip) {
                    lemma_ipv4_text_parts(ip, s@);
                    lemma_octet_at_unique(s@, 0, a, ip.a);
                    lemma_octet_at_unique(s@, p1 as int + 1, b, ip.b);
                    lemma_octet_at_unique(s@, p2 as int + 1, c, ip.c);
                    assert(false);
                }
            }
        }
        return None;
    }
    let o3 = parse_octet(s, p3 + 1, len);
    let (d, p4) = match o3 {
        Some(p) => p,
        None => {
            proof {
                assert forall|ip: Ipv4| s@ != ipv4_text(ip) by {
                    if s@ == ipv4_text(ip) {
                        lemma_ipv4_text_parts(ip, s@);
                        lemma_octet_at_unique(s@, 0, a, ip.a);
                        lemma_octet_at_unique(s@, p1 as int + 1, b, ip.b);
                        lemma_octet_at_unique(s@, p2 as int + 1, c, ip.c);
                        assert(false);
                    }
                }
            }
            return None;
        },
    };
    if p4 != len {
        proof {
            assert forall|ip: Ipv4| s@ != ipv4_text(ip) by {
                if s@ == ipv4_text(ip) {
                    lemma_ipv4_text_parts(ip, s@);
                    lemma_octet_at_unique(s@, 0, a, ip.a);
                    lemma_octet_at_unique(s@, p1 as int + 1, b, ip.b);
                    lemma_octet_at_unique(s@, p2 as int + 1, c, ip.c);
                    lemma_octet_at_unique(s@, p3 as int + 1, d, ip.d);
                    assert(false);
                }
            }
        }
        return None;
    }
    let ip = Ipv4 { a, b, c, d };
    proof {
        lemma_ipv4_text_compose(s@, ip);
    }
    Some(ip)
}

} // verus!
