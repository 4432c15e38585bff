//! IPv4 addresses and subnets as plain values, with their canonical dotted
//! text form, a parser for it, and the formatter.
use vstd::prelude::*;
use vstd::string::*;

verus! {

/// An IPv4 address, held as its four octets.
#[derive(Clone, Copy, Debug, PartialEq, Eq, Structural)]
pub struct Ipv4Addr(pub u8, pub u8, pub u8, pub u8);

pub open spec fn is_digit(c: char) -> bool {
    '0' <= c && c <= '9'
}

pub open spec fn digit_val(c: char) -> int {
    c as int - '0' as int
}

pub open spec fn digit_char(d: int) -> char {
    if d == 0 { '0' } else if d == 1 { '1' } else if d == 2 { '2' } else if d == 3 { '3' }
    else if d == 4 { '4' } else if d == 5 { '5' } else if d == 6 { '6' } else if d == 7 { '7' }
    else if d == 8 { '8' } else { '9' }
}

/// The canonical decimal text of a number below one thousand: no leading zeros.
pub open spec fn dec3(n: int) -> Seq<char> {
    if n < 10 {
        seq![digit_char(n)]
    } else if n < 100 {
        seq![digit_char(n / 10), digit_char(n % 10)]
    } else {
        seq![digit_char(n / 100), digit_char((n / 10) % 10), digit_char(n % 10)]
    }
}

/// The dotted-quad text of an address, as `a.b.c.d`.
#[verifier::opaque]
pub open spec fn ipv4_text(a: Ipv4Addr) -> Seq<char> {
    dec3(a.0 as int) + seq!['.'] + dec3(a.1 as int) + seq!['.'] + dec3(a.2 as int) + seq!['.']
        + dec3(a.3 as int)
}

/// The value of a sequence of decimal digits.
pub open spec fn dval(s: Seq<char>) -> int
    decreases s.len(),
{
    if s.len() == 0 {
        0
    } else {
        dval(s.drop_last()) * 10 + digit_val(s.last())
    }
}

/// `s` holds, at `start`, the canonical text of `n`, not followed by a further digit.
pub open spec fn octet_at(s: Seq<char>, start: int, n: int) -> bool {
    let e = start + dec3(n).len();
    &&& 0 <= start
    &&& e <= s.len()
    &&& s.subrange(start, e) == dec3(n)
    &&& (e == s.len() || !is_digit(s[e]))
}

pub proof fn lemma_digit_roundtrip(c: char, k: int)
    ensures
        is_digit(c) ==> digit_char(digit_val(c)) == c && 0 <= digit_val(c) < 10,
        0 <= k < 10 ==> digit_val(digit_char(k)) == k && is_digit(digit_char(k)),
{
}

pub proof fn lemma_dval_small(d: Seq<char>)
    requires
        1 <= d.len() <= 3,
    ensures
        d.len() == 1 ==> dval(d) == digit_val(d[0]),
        d.len() == 2 ==> dval(d) == digit_val(d[0]) * 10 + digit_val(d[1]),
        d.len() == 3 ==> dval(d) == (digit_val(d[0]) * 10 + digit_val(d[1])) * 10 + digit_val(
            d[2],
        ),
{
    reveal_with_fuel(dval, 4);
    if d.len() == 1 {
        assert(d.drop_last() =~= Seq::<char>::empty());
    } else if d.len() == 2 {
        assert(d.drop_last() =~= seq![d[0]]);
        assert(d.drop_last().drop_last() =~= Seq::<char>::empty());
    } else {
        assert(d.drop_last() =~= seq![d[0], d[1]]);
        assert(d.drop_last().drop_last() =~= seq![d[0]]);
        assert(d.drop_last().drop_last().drop_last() =~= Seq::<char>::empty());
    }
}

pub proof fn lemma_dec3_digits(n: int)
    requires
        0 <= n < 1000,
    ensures
        1 <= dec3(n).len() <= 3,
        forall|i: int| 0 <= i < dec3(n).len() ==> #[trigger] is_digit(dec3(n)[i]),
        dval(dec3(n)) == n,
        dec3(n).len() > 1 ==> dec3(n)[0] != '0',
        n < 10 <==> dec3(n).len() == 1,
{
    let d = dec3(n);
    lemma_dval_small(d);
    lemma_digit_roundtrip('0', n % 10);
    lemma_digit_roundtrip('0', (n / 10) % 10);
    lemma_digit_roundtrip('0', n / 10);
    lemma_digit_roundtrip('0', n / 100);
}

pub proof fn lemma_digits_are_dec3(d: Seq<char>)
    requires
        1 <= d.len() <= 3,
        forall|i: int| 0 <= i < d.len() ==> #[trigger] is_digit(d[i]),
        d.len() > 1 ==> d[0] != '0',
    ensures
        0 <= dval(d) < 1000,
        dec3(dval(d)) == d,
{
    lemma_dval_small(d);
    assert(is_digit(d[0]));
    lemma_digit_roundtrip(d[0], 0);
    if d.len() == 1 {
        assert(dec3(dval(d)) =~= d);
    } else if d.len() == 2 {
        assert(is_digit(d[1]));
        lemma_digit_roundtrip(d[1], 0);
        let a = digit_val(d[0]);
        let b = digit_val(d[1]);
        assert((a * 10 + b) / 10 == a && (a * 10 + b) % 10 == b);
        assert(dec3(dval(d)) =~= d);
    } else {
        assert(is_digit(d[1]) && is_digit(d[2]));
        lemma_digit_roundtrip(d[1], 0);
        lemma_digit_roundtrip(d[2], 0);
        let a = digit_val(d[0]);
        let b = digit_val(d[1]);
        let c = digit_val(d[2]);
        let v = (a * 10 + b) * 10 + c;
        assert(v / 100 == a && (v / 10) % 10 == b && v % 10 == c) by (nonlinear_arith)
            requires
                0 <= a < 10,
                0 <= b < 10,
                0 <= c < 10,
                v == (a * 10 + b) * 10 + c,
        ;
        assert(dec3(dval(d)) =~= d);
    }
}

fn is_digit_exec(c: char) -> (b: bool)
    ensures
        b == is_digit(c),
{
    '0' <= c && c <= '9'
}

/// Reads the octet whose text starts at `start`, as the longest run of digits there.
fn parse_octet(s: &str, len: usize, start: usize) -> (r: Option<(u8, usize)>)
    requires
        len == s@.len(),
        start <= len,
    ensures
        r matches Some((v, e)) ==> octet_at(s@, start as int, v as int) && e == start
            + dec3(v as int).len(),
        r is None ==> forall|n: int| 0 <= n < 256 ==> !#[trigger] octet_at(s@, start as int, n),
{
    let ghost ss = s@;
    let mut i = start;
    let mut v: u32 = 0;
    while i < len && i - start < 4 && is_digit_exec(s.get_char(i))
        invariant
            len == ss.len(),
            ss == s@,
            start <= i <= len,
            i - start <= 4,
            forall|k: int| start <= k < i ==> #[trigger] is_digit(ss[k]),
            v == dval(ss.subrange(start as int, i as int)),
            i - start == 0 ==> v == 0,
            i - start == 1 ==> v < 10,
            i - start == 2 ==> v < 100,
            i - start == 3 ==> v < 1000,
            v < 10000,
        decreases len - i,
    {
        let c = s.get_char(i);
        let d = (c as u32) - ('0' as u32);
        proof {
            assert(ss.subrange(start as int, i + 1).drop_last() =~= ss.subrange(
                start as int,
                i as int,
            ));
        }
        v = v * 10 + d;
        i = i + 1;
    }
    let count = i - start;
    let ghost run = ss.subrange(start as int, i as int);
    let ok = count >= 1 && count <= 3 && (count == 1 || s.get_char(start) != '0') && v <= 255;
    if ok {
        proof {
            lemma_digits_are_dec3(run);
            assert(run[0] == ss[start as int]);
            lemma_dec3_digits(v as int);
            if i < len {
                if is_digit(ss[i as int]) {
                    assert(count < 4);
                }
            }
        }
        Some((v as u8, i))
    } else {
        proof {
            assert forall|n: int| 0 <= n < 256 implies !#[trigger] octet_at(ss, start as int, n) by {
                if octet_at(ss, start as int, n) {
                    lemma_dec3_digits(n);
                    let e = start + dec3(n).len();
                    // the digit run ends exactly where the text of n ends
                    if i < e {
                        assert(is_digit(dec3(n)[i - start]));
                        assert(ss[i as int] == dec3(n)[i - start]);
                        assert(i - start == 4);
                        assert(false);
                    } else if i > e {
                        assert(is_digit(ss[e]));
                        assert(false);
                    }
                    assert(run =~= dec3(n));
                    if count > 1 {
                        assert(run[0] == ss[start as int]);
                    }
                }
            }
        }
        None
    }
}

} // verus!
verus! {

pub proof fn lemma_octet_unique(s: Seq<char>, start: int, n: int, m: int)
    requires
        0 <= n < 256,
        0 <= m < 256,
        octet_at(s, start, n),
        octet_at(s, start, m),
    ensures
        n == m,
{
    lemma_dec3_digits(n);
    lemma_dec3_digits(m);
    let ln = dec3(n).len() as int;
    let lm = dec3(m).len() as int;
    if ln < lm {
        assert(s[start + ln] == s.subrange(start, start + lm)[ln]);
        assert(is_digit(dec3(m)[ln]));
        assert(false);
    } else if lm < ln {
        assert(s[start + lm] == s.subrange(start, start + ln)[lm]);
        assert(is_digit(dec3(n)[lm]));
        assert(false);
    }
    assert(dec3(n) == dec3(m));
}

/// Where each octet's text ends within the dotted-quad text of `a`.
pub open spec fn text_ends(a: Ipv4Addr) -> (int, int, int, int) {
    let e0 = dec3(a.0 as int).len() as int;
    let e1 = e0 + 1 + dec3(a.1 as int).len();
    let e2 = e1 + 1 + dec3(a.2 as int).len();
    let e3 = e2 + 1 + dec3(a.3 as int).len();
    (e0, e1, e2, e3)
}

pub proof fn lemma_text_parts(a: Ipv4Addr)
    ensures
        ({
            let s = ipv4_text(a);
            let (e0, e1, e2, e3) = text_ends(a);
            &&& octet_at(s, 0, a.0 as int)
            &&& e0 < s.len() && s[e0] == '.'
            &&& octet_at(s, e0 + 1, a.1 as int)
            &&& e1 < s.len() && s[e1] == '.'
            &&& octet_at(s, e1 + 1, a.2 as int)
            &&& e2 < s.len() && s[e2] == '.'
            &&& octet_at(s, e2 + 1, a.3 as int)
            &&& e3 == s.len()
        }),
{
    reveal(ipv4_text);
    let s = ipv4_text(a);
    let (e0, e1, e2, e3) = text_ends(a);
    let d0 = dec3(a.0 as int);
    let d1 = dec3(a.1 as int);
    let d2 = dec3(a.2 as int);
    let d3 = dec3(a.3 as int);
    lemma_dec3_digits(a.0 as int);
    lemma_dec3_digits(a.1 as int);
    lemma_dec3_digits(a.2 as int);
    lemma_dec3_digits(a.3 as int);
    assert(s.len() == e3);
    assert(s.subrange(0, e0) =~= d0);
    assert(s[e0] == '.');
    assert(s.subrange(e0 + 1, e1) =~= d1);
    assert(s[e1] == '.');
    assert(s.subrange(e1 + 1, e2) =~= d2);
    assert(s[e2] == '.');
    assert(s.subrange(e2 + 1, e3) =~= d3);
    assert(!is_digit('.'));
}

fn char_at_is(s: &str, len: usize, i: usize, c: char) -> (b: bool)
    requires
        len == s@.len(),
    ensures
        b == (i < len && s@[i as int] == c),
{
    i < len && s.get_char(i) == c
}

/// The first `k` octets of the text of `a`, with the dots after them, stand in `s`
/// where the parser found octets `v` ending at `e`.
pub open spec fn stages_agree(s: Seq<char>, k: int, v: Seq<u8>, e: Seq<int>) -> bool {
    &&& v.len() >= k && e.len() >= k
    &&& (k >= 1 ==> octet_at(s, 0, v[0] as int) && e[0] == dec3(v[0] as int).len())
    &&& (k >= 2 ==> octet_at(s, e[0] + 1, v[1] as int) && e[1] == e[0] + 1 + dec3(
        v[1] as int,
    ).len())
    &&& (k >= 3 ==> octet_at(s, e[1] + 1, v[2] as int) && e[2] == e[1] + 1 + dec3(
        v[2] as int,
    ).len())
    &&& (k >= 4 ==> octet_at(s, e[2] + 1, v[3] as int) && e[3] == e[2] + 1 + dec3(
        v[3] as int,
    ).len())
}

/// If `s` is the text of `a`, the octets the parser found so far are those of `a`.
pub proof fn lemma_stages(s: Seq<char>, a: Ipv4Addr, k: int, v: Seq<u8>, e: Seq<int>)
    requires
        ipv4_text(a) == s,
        0 <= k <= 4,
        stages_agree(s, k, v, e),
    ensures
        k >= 1 ==> v[0] == a.0 && e[0] == text_ends(a).0,
        k >= 2 ==> v[1] == a.1 && e[1] == text_ends(a).1,
        k >= 3 ==> v[2] == a.2 && e[2] == text_ends(a).2,
        k >= 4 ==> v[3] == a.3 && e[3] == text_ends(a).3,
        ({
            let (t0, t1, t2, t3) = text_ends(a);
            &&& t0 < s.len() && s[t0] == '.'
            &&& t1 < s.len() && s[t1] == '.'
            &&& t2 < s.len() && s[t2] == '.'
            &&& t3 == s.len()
            &&& octet_at(s, 0, a.0 as int)
            &&& octet_at(s, t0 + 1, a.1 as int)
            &&& octet_at(s, t1 + 1, a.2 as int)
            &&& octet_at(s, t2 + 1, a.3 as int)
        }),
{
    lemma_text_parts(a);
    if k >= 1 {
        lemma_octet_unique(s, 0, v[0] as int, a.0 as int);
    }
    if k >= 2 {
        lemma_octet_unique(s, e[0] + 1, v[1] as int, a.1 as int);
    }
    if k >= 3 {
        lemma_octet_unique(s, e[1] + 1, v[2] as int, a.2 as int);
    }
    if k >= 4 {
        lemma_octet_unique(s, e[2] + 1, v[3] as int, a.3 as int);
    }
}

/// Four octets found at the right places, separated by dots and covering `s`, make the
/// text of the address they form.
pub proof fn lemma_compose(s: Seq<char>, v: Seq<u8>, e: Seq<int>)
    requires
        v.len() == 4,
        stages_agree(s, 4, v, e),
        e[0] < s.len() && s[e[0]] == '.',
        e[1] < s.len() && s[e[1]] == '.',
        e[2] < s.len() && s[e[2]] == '.',
        e[3] == s.len(),
    ensures
        ipv4_text(Ipv4Addr(v[0], v[1], v[2], v[3])) == s,
{
    reveal(ipv4_text);
    assert(s =~= s.subrange(0, e[0]) + seq!['.'] + s.subrange(e[0] + 1, e[1]) + seq!['.']
        + s.subrange(e[1] + 1, e[2]) + seq!['.'] + s.subrange(e[2] + 1, e[3]));
}

/// Parses the dotted-quad text of an IPv4 address: four decimal octets of at
/// most three digits, without leading zeros, each at most 255, separated by dots.
pub fn parse_ipv4(s: &str) -> (r: Option<Ipv4Addr>)
    ensures
        r matches Some(a) ==> ipv4_text(a) == s@,
        r is None ==> forall|a: Ipv4Addr| ipv4_text(a) != s@,
{
    let len = s.unicode_len();
    let ghost ss = s@;
    let r0 = parse_octet(s, len, 0);
    if r0.is_none() {
        proof {
            assert forall|a: Ipv4Addr| ipv4_text(a) != ss by {
                if ipv4_text(a) == ss {
                    lemma_stages(ss, a, 0, seq![], seq![]);
                }
            }
        }
        return None;
    }
    let (a0, e0) = r0.unwrap();
    if !char_at_is(s, len, e0, '.') || e0 >= len {
        proof {
            assert forall|a: Ipv4Addr| ipv4_text(a) != ss by {
                if ipv4_text(a) == ss {
                    lemma_stages(ss, a, 1, seq![a0], seq![e0 as int]);
                }
            }
        }
        return None;
    }
    let r1 = parse_octet(s, len, e0 + 1);
    if r1.is_none() {
        proof {
            assert forall|a: Ipv4Addr| ipv4_text(a) != ss by {
                if ipv4_text(a) == ss {
                    lemma_stages(ss, a, 1, seq![a0], seq![e0 as int]);
                }
            }
        }
        return None;
    }
    let (a1, e1) = r1.unwrap();
    if !char_at_is(s, len, e1, '.') || e1 >= len {
        proof {
            assert forall|a: Ipv4Addr| ipv4_text(a) != ss by {
                if ipv4_text(a) == ss {
                    lemma_stages(ss, a, 2, seq![a0, a1], seq![e0 as int, e1 as int]);
                }
            }
        }
        return None;
    }
    let r2 = parse_octet(s, len, e1 + 1);
    if r2.is_none() {
        proof {
            assert forall|a: Ipv4Addr| ipv4_text(a) != ss by {
                if ipv4_text(a) == ss {
                    lemma_stages(ss, a, 2, seq![a0, a1], seq![e0 as int, e1 as int]);
                }
            }
        }
        return None;
    }
    let (a2, e2) = r2.unwrap();
    if !char_at_is(s, len, e2, '.') || e2 >= len {
        proof {
            assert forall|a: Ipv4Addr| ipv4_text(a) != ss by {
                if ipv4_text(a) == ss {
                    lemma_stages(ss, a, 3, seq![a0, a1, a2], seq![e0 as int, e1 as int, e2 as int]);
                }
            }
        }
        return None;
    }
    let r3 = parse_octet(s, len, e2 + 1);
    if r3.is_none() {
        proof {
            assert forall|a: Ipv4Addr| ipv4_text(a) != ss by {
                if ipv4_text(a) == ss {
                    lemma_stages(ss, a, 3, seq![a0, a1, a2], seq![e0 as int, e1 as int, e2 as int]);
                }
            }
        }
        return None;
    }
    let (a3, e3) = r3.unwrap();
    if e3 != len {
        proof {
            assert forall|a: Ipv4Addr| ipv4_text(a) != ss by {
                if ipv4_text(a) == ss {
                    lemma_stages(ss, a, 4, seq![a0, a1, a2, a3], seq![e0 as int, e1 as int, e2 as int, e3 as int]);
                }
            }
        }
        return None;
    }
    proof {
        lemma_compose(ss, seq![a0, a1, a2, a3], seq![e0 as int, e1 as int, e2 as int, e3 as int]);
    }
    Some(Ipv4Addr(a0, a1, a2, a3))
}

} // verus!
verus! {

/// Two addresses with the same dotted-quad text are the same address; with the
/// contracts of `format_ipv4` and `parse_ipv4`, parsing the formatted text of an
/// address gives that address back.
pub proof fn law_ipv4_text_injective(a: Ipv4Addr, b: Ipv4Addr)
    requires
        ipv4_text(a) == ipv4_text(b),
    ensures
        a == b,
{
    lemma_text_parts(a);
    lemma_text_parts(b);
    let s = ipv4_text(a);
    lemma_octet_unique(s, 0, a.0 as int, b.0 as int);
    lemma_octet_unique(s, text_ends(a).0 + 1, a.1 as int, b.1 as int);
    lemma_octet_unique(s, text_ends(a).1 + 1, a.2 as int, b.2 as int);
    lemma_octet_unique(s, text_ends(a).2 + 1, a.3 as int, b.3 as int);
}

pub(crate) fn digit_str(d: u8) -> (r: &'static str)
    requires
        d < 10,
    ensures
        r@ == seq![digit_char(d as int)],
{
    if d == 0 {
        proof { reveal_strlit("0"); }
        "0"
    } else if d == 1 {
        proof { reveal_strlit("1"); }
        "1"
    } else if d == 2 {
        proof { reveal_strlit("2"); }
        "2"
    } else if d == 3 {
        proof { reveal_strlit("3"); }
        "3"
    } else if d == 4 {
        proof { reveal_strlit("4"); }
        "4"
    } else if d == 5 {
        proof { reveal_strlit("5"); }
        "5"
    } else if d == 6 {
        proof { reveal_strlit("6"); }
        "6"
    } else if d == 7 {
        proof { reveal_strlit("7"); }
        "7"
    } else if d == 8 {
        proof { reveal_strlit("8"); }
        "8"
    } else {
        proof { reveal_strlit("9"); }
        "9"
    }
}

/// Appends the canonical decimal text of `n` to `out`.
pub fn push_decimal(out: &mut String, n: u8)
    ensures
        final(out)@ == old(out)@ + dec3(n as int),
{
    if n < 10 {
        out.append(digit_str(n));
    } else if n < 100 {
        out.append(digit_str(n / 10));
        out.append(digit_str(n % 10));
    } else {
        out.append(digit_str(n / 100));
        out.append(digit_str((n / 10) % 10));
        out.append(digit_str(n % 10));
    }
    assert(out@ =~= old(out)@ + dec3(n as int));
}

/// Appends the dotted-quad text of `a` to `out`.
pub fn push_ipv4(out: &mut String, a: Ipv4Addr)
    ensures
        final(out)@ == old(out)@ + ipv4_text(a),
{
    proof { reveal_strlit("."); }
    push_decimal(out, a.0);
    out.append(".");
    push_decimal(out, a.1);
    out.append(".");
    push_decimal(out, a.2);
    out.append(".");
    push_decimal(out, a.3);
    reveal(ipv4_text);
    assert(out@ =~= old(out)@ + ipv4_text(a));
}

/// The dotted-quad text of `a`, as `Ipv4Addr`'s `Display` writes it.
pub fn format_ipv4(a: Ipv4Addr) -> (r: String)
    ensures
        r@ == ipv4_text(a),
{
    let mut out = String::new();
    push_ipv4(&mut out, a);
    assert(out@ =~= ipv4_text(a));
    out
}

} // verus!
verus! {

/// An IPv4 subnet: the gateway address and the length of the network prefix.
#[derive(Clone, Copy, Debug, PartialEq, Eq, Structural)]
pub struct Subnet {
    pub gateway: Ipv4Addr,
    pub mask: u8,
}

/// The text of a subnet, as `gateway/mask`.
pub open spec fn subnet_text(s: Subnet) -> Seq<char> {
    ipv4_text(s.gateway) + seq!['/'] + dec3(s.mask as int)
}

/// The text of `s`, as the `Display` of `embedded_svc::ipv4::Subnet` writes it.
pub fn format_subnet(s: Subnet) -> (r: String)
    ensures
        r@ == subnet_text(s),
{
    proof { reveal_strlit("/"); }
    let mut out = String::new();
    push_ipv4(&mut out, s.gateway);
    out.append("/");
    push_decimal(&mut out, s.mask);
    assert(out@ =~= subnet_text(s));
    out
}

/// `s` has a `/` at `i`.
pub open spec fn slash_at(s: Seq<char>, i: int) -> bool {
    0 <= i < s.len() && s[i] == '/'
}

/// `s` has exactly one `/`.
pub open spec fn one_slash(s: Seq<char>) -> bool {
    &&& exists|i: int| slash_at(s, i)
    &&& forall|i: int, j: int| slash_at(s, i) && slash_at(s, j) ==> i == j
}

/// What `u8::from_str` reads, as its documentation says: an optional `+` followed
/// by decimal digits only, whose value fits in a byte.
pub open spec fn u8_of_text(s: Seq<char>) -> Option<u8> {
    let d = if s.len() > 0 && s[0] == '+' {
        s.drop_first()
    } else {
        s
    };
    if d.len() > 0 && (forall|i: int| 0 <= i < d.len() ==> is_digit(#[trigger] d[i])) && dval(d)
        <= 255 {
        Some(dval(d) as u8)
    } else {
        None
    }
}

/// What `embedded_svc::ipv4::Subnet::from_str` returns for a text: with exactly one
/// `/`, the gateway before it read as an IPv4 address in dotted decimal notation
/// and the mask after it read as a `u8` within 1..=32, as the gateway's octets and
/// the mask; otherwise the error message of the first step that fails.
pub open spec fn subnet_from_str(s: Seq<char>) -> Result<(u8, u8, u8, u8, u8), Seq<char>> {
    if !one_slash(s) {
        Err("Expected <gateway-ip-address>/<mask>"@)
    } else {
        let i = choose|i: int| slash_at(s, i);
        let g = s.subrange(0, i);
        let m = s.subrange(i + 1, s.len() as int);
        if !(exists|a: Ipv4Addr| ipv4_text(a) == g) {
            Err("Invalid IP address format, expected XXX.XXX.XXX.XXX"@)
        } else {
            let a = choose|a: Ipv4Addr| ipv4_text(a) == g;
            match u8_of_text(m) {
                None => Err("Invalid subnet mask"@),
                Some(k) => if 1 <= k <= 32 {
                    Ok((a.0, a.1, a.2, a.3, k))
                } else {
                    Err("Mask should be a number between 1 and 32"@)
                },
            }
        }
    }
}

/// No character of an address's text is a `/`.
proof fn lemma_ipv4_text_no_slash(a: Ipv4Addr)
    ensures
        forall|i: int| 0 <= i < ipv4_text(a).len() ==> ipv4_text(a)[i] != '/',
{
    reveal(ipv4_text);
    lemma_dec3_digits(a.0 as int);
    lemma_dec3_digits(a.1 as int);
    lemma_dec3_digits(a.2 as int);
    lemma_dec3_digits(a.3 as int);
    let d0 = dec3(a.0 as int);
    let d1 = dec3(a.1 as int);
    let d2 = dec3(a.2 as int);
    let d3 = dec3(a.3 as int);
    let dot = seq!['.'];
    let t = ipv4_text(a);
    assert forall|i: int| 0 <= i < t.len() implies t[i] != '/' by {
        let p1 = d0 + dot;
        let p2 = p1 + d1;
        let p3 = p2 + dot;
        let p4 = p3 + d2;
        let p5 = p4 + dot;
        assert(t == p5 + d3);
        if i < d0.len() {
            assert(t[i] == d0[i]);
            assert(is_digit(d0[i]));
        } else if i < p1.len() {
            assert(t[i] == '.');
        } else if i < p2.len() {
            assert(t[i] == d1[i - p1.len()]);
            assert(is_digit(d1[i - p1.len()]));
        } else if i < p3.len() {
            assert(t[i] == '.');
        } else if i < p4.len() {
            assert(t[i] == d2[i - p3.len()]);
            assert(is_digit(d2[i - p3.len()]));
        } else if i < p5.len() {
            assert(t[i] == '.');
        } else {
            assert(t[i] == d3[i - p5.len()]);
            assert(is_digit(d3[i - p5.len()]));
        }
    }
}

/// The text of a subnet whose mask is within 1..=32 reads back as that subnet.
pub proof fn law_subnet_text_round_trip(sn: Subnet)
    requires
        1 <= sn.mask <= 32,
    ensures
        subnet_from_str(subnet_text(sn)) == subnet_ok(sn),
{
    let g = ipv4_text(sn.gateway);
    let m = dec3(sn.mask as int);
    let s = subnet_text(sn);
    let k = g.len() as int;
    lemma_ipv4_text_no_slash(sn.gateway);
    lemma_dec3_digits(sn.mask as int);
    assert(s == g + seq!['/'] + m);
    assert(s[k] == '/');
    assert(slash_at(s, k));
    assert forall|i: int| slash_at(s, i) implies i == k by {
        if i < k {
            assert(s[i] == g[i]);
        } else if i > k {
            assert(s[i] == m[i - k - 1]);
            assert(is_digit(m[i - k - 1]));
        }
    }
    assert(one_slash(s));
    let i = choose|i: int| slash_at(s, i);
    assert(i == k);
    assert(s.subrange(0, k) =~= g);
    assert(s.subrange(k + 1, s.len() as int) =~= m);
    let a = choose|a: Ipv4Addr| ipv4_text(a) == g;
    law_ipv4_text_injective(a, sn.gateway);
    assert(is_digit(m[0]));
    assert(u8_of_text(m) == Some(sn.mask));
}

/// A text without a `/` is refused with the message that asks for one.
pub proof fn lemma_no_slash_refused(s: Seq<char>)
    requires
        forall|i: int| 0 <= i < s.len() ==> s[i] != '/',
    ensures
        subnet_from_str(s) == subnet_err("Expected <gateway-ip-address>/<mask>"@),
{
}

pub open spec fn subnet_ok(sn: Subnet) -> Result<(u8, u8, u8, u8, u8), Seq<char>> {
    Ok((sn.gateway.0, sn.gateway.1, sn.gateway.2, sn.gateway.3, sn.mask))
}

pub open spec fn subnet_err(e: Seq<char>) -> Result<(u8, u8, u8, u8, u8), Seq<char>> {
    Err(e)
}

/// Parses a subnet by `embedded_svc::ipv4::Subnet::from_str`, whose result
/// `subnet_from_str` states: the source splits at `/`, reads the gateway with
/// `Ipv4Addr::from_str` (dotted decimal, without leading zeros, as its documentation
/// says) and the mask with `u8::from_str` (an optional `+` and digits) checked
/// against 1..=32.
#[verifier::external_body]
pub(crate) fn parse_subnet(s: &str) -> (r: Result<Subnet, String>)
    ensures
        r matches Ok(sn) ==> subnet_from_str(s@) == subnet_ok(sn),
        r matches Err(e) ==> subnet_from_str(s@) == subnet_err(e@),
{
    match <embedded_svc::ipv4::Subnet as core::str::FromStr>::from_str(s) {
        Ok(sn) => {
            let o = sn.gateway.octets();
            Ok(Subnet { gateway: Ipv4Addr(o[0], o[1], o[2], o[3]), mask: sn.mask.0 })
        },
        Err(e) => Err(e.to_string()),
    }
}

} // verus!
