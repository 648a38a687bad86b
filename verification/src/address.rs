//! Addresses as the collector meets them: the text of an IPv4 or IPv6 address,
//! the private classes an address can fall in, the direction of a flow, and the
//! byte order of a port in a kernel table.

use vstd::prelude::*;
use crate::flow::FlowDirection;
use crate::text::{
    all_digits, chars_of, decimal, digits_value, join, lemma_decimal_digits,
    lemma_decimal_of_digits, lemma_join_split, lemma_split_first, lemma_split_whole, push_decimal,
    read_digits, slice_of, split, split_on, str_eq, texts,
};

verus! {

/// The octet that a text denotes: one to three decimal digits, no leading
/// zero but in `"0"` itself, and a value of at most 255.
pub open spec fn octet_text(t: Seq<char>) -> Option<u8> {
    if 1 <= t.len() <= 3 && all_digits(t) && (t.len() == 1 || t[0] != '0') && digits_value(t)
        <= 255 {
        Some(digits_value(t) as u8)
    } else {
        None
    }
}

/// The four octets that a dotted-quad text denotes.
pub open spec fn parse_ipv4(s: Seq<char>) -> Option<(u8, u8, u8, u8)> {
    let p = split(s, '.');
    if p.len() == 4 && octet_text(p[0]) is Some && octet_text(p[1]) is Some && octet_text(p[2])
        is Some && octet_text(p[3]) is Some {
        Some((octet_text(p[0])->0, octet_text(p[1])->0, octet_text(p[2])->0, octet_text(p[3])->0))
    } else {
        None
    }
}

/// The dotted-quad text of four octets.
pub open spec fn ipv4_text(a: u8, b: u8, c: u8, d: u8) -> Seq<char> {
    decimal(a as nat) + seq!['.'] + decimal(b as nat) + seq!['.'] + decimal(c as nat) + seq!['.']
        + decimal(d as nat)
}

/// The dotted-quad text of an address given as four octets.
pub open spec fn quad_text(q: (u8, u8, u8, u8)) -> Seq<char> {
    ipv4_text(q.0, q.1, q.2, q.3)
}

/// The numeral of an octet denotes the octet.
pub proof fn lemma_octet_of_numeral(v: u8)
    ensures
        octet_text(decimal(v as nat)) == Some(v),
        forall|i: int| 0 <= i < decimal(v as nat).len() ==> decimal(v as nat)[i] != '.',
{
    lemma_decimal_digits(v as nat);
}

/// A text that denotes an octet is the numeral of the octet.
pub proof fn lemma_numeral_of_octet(t: Seq<char>)
    requires
        octet_text(t) is Some,
    ensures
        t == decimal(octet_text(t)->0 as nat),
{
    lemma_decimal_of_digits(t);
}

/// Writing four octets as a dotted quad and reading the text again gives the
/// four octets.
pub proof fn lemma_ipv4_round_trip(a: u8, b: u8, c: u8, d: u8)
    ensures
        parse_ipv4(ipv4_text(a, b, c, d)) == Some((a, b, c, d)),
{
    let ta = decimal(a as nat);
    let tb = decimal(b as nat);
    let tc = decimal(c as nat);
    let td = decimal(d as nat);
    lemma_octet_of_numeral(a);
    lemma_octet_of_numeral(b);
    lemma_octet_of_numeral(c);
    lemma_octet_of_numeral(d);
    let dot = seq!['.'];
    let r2 = tc + dot + td;
    let r1 = tb + dot + r2;
    let s = ta + dot + r1;
    assert(s == ipv4_text(a, b, c, d));
    lemma_split_whole(td, '.');
    lemma_split_first(tc, td, '.');
    lemma_split_first(tb, r2, '.');
    lemma_split_first(ta, r1, '.');
    let p = split(s, '.');
    assert(p == seq![ta] + (seq![tb] + (seq![tc] + seq![td])));
    assert(p.len() == 4);
    assert(p[0] == ta && p[1] == tb && p[2] == tc && p[3] == td);
}

/// A text that reads as four octets is the dotted quad of those octets: no
/// other text denotes the same address.
pub proof fn lemma_ipv4_canonical(s: Seq<char>)
    requires
        parse_ipv4(s) is Some,
    ensures
        s == quad_text(parse_ipv4(s)->0),
{
    let p = split(s, '.');
    lemma_join_split(s, '.');
    lemma_numeral_of_octet(p[0]);
    lemma_numeral_of_octet(p[1]);
    lemma_numeral_of_octet(p[2]);
    lemma_numeral_of_octet(p[3]);
    let from_second = p.drop_first();
    let from_third = from_second.drop_first();
    let last = from_third.drop_first();
    assert(from_second[0] == p[1] && from_third[0] == p[2] && last[0] == p[3]);
    assert(join(last, '.') == p[3]);
    assert(join(from_third, '.') == p[2] + seq!['.'] + p[3]);
    assert(join(from_second, '.') == p[1] + seq!['.'] + (p[2] + seq!['.'] + p[3]));
    assert(join(p, '.') == p[0] + seq!['.'] + (p[1] + seq!['.'] + (p[2] + seq!['.'] + p[3])));
    assert(s == p[0] + seq!['.'] + p[1] + seq!['.'] + p[2] + seq!['.'] + p[3]);
}

/// Executable [`octet_text`].
pub fn read_octet(t: &Vec<char>) -> (r: Option<u8>)
    ensures
        r == octet_text(t@),
{
    if t.len() < 1 || t.len() > 3 {
        return None;
    }
    if t.len() > 1 && t[0] == '0' {
        return None;
    }
    assert(t@.skip(0) == t@);
    match read_digits(t, 0, 255) {
        Some(n) => Some(n as u8),
        None => None,
    }
}

/// Executable [`parse_ipv4`].
pub fn read_ipv4(v: &Vec<char>) -> (r: Option<(u8, u8, u8, u8)>)
    ensures
        r == parse_ipv4(v@),
{
    let pieces = split_on(v, '.');
    if pieces.len() != 4 {
        return None;
    }
    assert(texts(pieces@)[0] == pieces@[0]@);
    assert(texts(pieces@)[1] == pieces@[1]@);
    assert(texts(pieces@)[2] == pieces@[2]@);
    assert(texts(pieces@)[3] == pieces@[3]@);
    let a = read_octet(&pieces[0]);
    let b = read_octet(&pieces[1]);
    let c = read_octet(&pieces[2]);
    let d = read_octet(&pieces[3]);
    match (a, b, c, d) {
        (Some(a), Some(b), Some(c), Some(d)) => Some((a, b, c, d)),
        _ => None,
    }
}

/// Appends the dotted-quad text of four octets to `out`.
pub fn push_ipv4(out: &mut String, a: u8, b: u8, c: u8, d: u8)
    ensures
        final(out)@ == old(out)@ + ipv4_text(a, b, c, d),
{
    push_decimal(out, a as u64);
    out.push('.');
    push_decimal(out, b as u64);
    out.push('.');
    push_decimal(out, c as u64);
    out.push('.');
    push_decimal(out, d as u64);
    assert(out@ == old(out)@ + ipv4_text(a, b, c, d));
}

/// The text of the IPv4 address held in a 32-bit field of a kernel table.
/// The field carries the address in network byte order: read on the
/// little-endian hosts that have such tables, its lowest byte is the first
/// octet.
pub open spec fn address_of_word(raw: u32) -> Seq<char> {
    ipv4_text(
        (raw % 256) as u8,
        ((raw / 256) % 256) as u8,
        ((raw / 65536) % 256) as u8,
        (raw / 16777216) as u8,
    )
}

/// Executable [`address_of_word`].
pub fn address_from_raw(raw: u32) -> (r: String)
    ensures
        r@ == address_of_word(raw),
{
    let mut out = String::new();
    push_ipv4(
        &mut out,
        (raw % 256) as u8,
        ((raw / 256) % 256) as u8,
        ((raw / 65536) % 256) as u8,
        (raw / 16777216) as u8,
    );
    out
}

/// Whether `c` is a hexadecimal digit.
pub open spec fn is_hex_digit(c: char) -> bool {
    ('0' <= c <= '9') || ('a' <= c <= 'f') || ('A' <= c <= 'F')
}

/// The value of a hexadecimal digit.
pub open spec fn hex_digit_of(c: char) -> nat {
    if '0' <= c <= '9' {
        (c as int - '0' as int) as nat
    } else if 'a' <= c <= 'f' {
        (c as int - 'a' as int + 10) as nat
    } else {
        (c as int - 'A' as int + 10) as nat
    }
}

/// The number that a text of hexadecimal digits denotes.
pub open spec fn hex_value(s: Seq<char>) -> nat
    decreases s.len(),
{
    if s.len() == 0 {
        0
    } else {
        hex_value(s.drop_last()) * 16 + hex_digit_of(s.last())
    }
}

/// The 16-bit group that a text denotes inside an IPv6 address: one to four
/// hexadecimal digits.
pub open spec fn hex_group(t: Seq<char>) -> Option<u16> {
    if 1 <= t.len() <= 4 && (forall|i: int| 0 <= i < t.len() ==> is_hex_digit(#[trigger] t[i])) {
        Some(hex_value(t) as u16)
    } else {
        None
    }
}

/// The groups that a run of colon-separated pieces denotes. Every piece is a
/// hexadecimal group; the last one may instead be a dotted quad, which stands
/// for two groups, where `quad_allowed` says so.
pub open spec fn groups_of_pieces(p: Seq<Seq<char>>, quad_allowed: bool) -> Option<Seq<u16>>
    decreases p.len(),
{
    if p.len() == 0 {
        Some(Seq::empty())
    } else if p.len() == 1 && quad_allowed && parse_ipv4(p[0]) is Some {
        let q = parse_ipv4(p[0])->0;
        Some(seq![(q.0 * 256 + q.1) as u16, (q.2 * 256 + q.3) as u16])
    } else {
        match hex_group(p[0]) {
            Some(g) => match groups_of_pieces(p.drop_first(), quad_allowed) {
                Some(rest) => Some(seq![g] + rest),
                None => None,
            },
            None => None,
        }
    }
}

/// The groups that one side of an IPv6 text denotes; the empty text denotes
/// no group.
pub open spec fn groups_of(t: Seq<char>, quad_allowed: bool) -> Option<Seq<u16>> {
    if t.len() == 0 {
        Some(Seq::empty())
    } else {
        groups_of_pieces(split(t, ':'), quad_allowed)
    }
}

/// The index of the first `::` in `s` at or after `from`.
pub open spec fn find_double_colon(s: Seq<char>, from: int) -> Option<int>
    decreases s.len() - from,
{
    if from < 0 || from + 1 >= s.len() {
        None
    } else if s[from] == ':' && s[from + 1] == ':' {
        Some(from)
    } else {
        find_double_colon(s, from + 1)
    }
}

/// The eight groups that an IPv6 text denotes. Without `::` the text holds all
/// eight; with `::` the groups before it and after it number at most seven and
/// the gap is filled with zeros. A dotted quad may end the text.
pub open spec fn parse_ipv6(s: Seq<char>) -> Option<Seq<u16>> {
    match find_double_colon(s, 0) {
        None => match groups_of(s, true) {
            Some(g) => if g.len() == 8 {
                Some(g)
            } else {
                None
            },
            None => None,
        },
        Some(k) => match (groups_of(s.take(k), false), groups_of(s.skip(k + 2), true)) {
            (Some(head), Some(tail)) => if head.len() + tail.len() <= 7 {
                Some(head + Seq::new((8 - head.len() - tail.len()) as nat, |i: int| 0u16) + tail)
            } else {
                None
            },
            _ => None,
        },
    }
}

/// Executable [`is_hex_digit`] and [`hex_digit_of`].
pub fn read_hex_digit(c: char) -> (r: Option<u16>)
    ensures
        r is Some == is_hex_digit(c),
        r matches Some(d) ==> d == hex_digit_of(c) && d < 16,
{
    if c >= '0' && c <= '9' {
        Some(((c as u32) - ('0' as u32)) as u16)
    } else if c >= 'a' && c <= 'f' {
        Some(((c as u32) - ('a' as u32) + 10) as u16)
    } else if c >= 'A' && c <= 'F' {
        Some(((c as u32) - ('A' as u32) + 10) as u16)
    } else {
        None
    }
}

/// Executable [`hex_group`].
pub fn read_hex_group(t: &Vec<char>) -> (r: Option<u16>)
    ensures
        r == hex_group(t@),
{
    if t.len() < 1 || t.len() > 4 {
        return None;
    }
    let mut acc: u32 = 0;
    let mut i: usize = 0;
    while i < t.len()
        invariant
            i <= t.len() <= 4,
            forall|k: int| 0 <= k < i ==> is_hex_digit(#[trigger] t@[k]),
            acc == hex_value(t@.take(i as int)),
            acc < pow16(i as nat),
        decreases t.len() - i,
    {
        match read_hex_digit(t[i]) {
            Some(d) => {
                proof {
                    let next = t@.take(i + 1);
                    assert(next.drop_last() == t@.take(i as int));
                    assert(next.last() == t@[i as int]);
                    reveal_with_fuel(pow16, 5);
                }
                acc = acc * 16 + (d as u32);
            },
            None => {
                return None;
            },
        }
        i = i + 1;
    }
    proof {
        assert(t@.take(t.len() as int) == t@);
        reveal_with_fuel(pow16, 5);
    }
    Some(acc as u16)
}

/// Sixteen to the power `n`.
pub open spec fn pow16(n: nat) -> nat
    decreases n,
{
    if n == 0 {
        1
    } else {
        16 * pow16((n - 1) as nat)
    }
}

/// Executable [`groups_of`].
pub fn read_groups(t: &Vec<char>, quad_allowed: bool) -> (r: Option<Vec<u16>>)
    ensures
        r is Some == groups_of(t@, quad_allowed) is Some,
        r matches Some(g) ==> groups_of(t@, quad_allowed) == Some(g@),
{
    let mut out: Vec<u16> = Vec::new();
    if t.len() == 0 {
        return Some(out);
    }
    let pieces = split_on(t, ':');
    let ghost p = texts(pieces@);
    let mut i: usize = 0;
    assert(p.skip(0) == p);
    while i < pieces.len()
        invariant
            i <= pieces.len(),
            p == texts(pieces@),
            p == split(t@, ':'),
            t@.len() > 0,
            groups_of_pieces(p, quad_allowed) is Some ==> groups_of_pieces(
                p.skip(i as int),
                quad_allowed,
            ) is Some && groups_of_pieces(p, quad_allowed)->0 == out@ + groups_of_pieces(
                p.skip(i as int),
                quad_allowed,
            )->0,
            groups_of_pieces(p.skip(i as int), quad_allowed) is Some ==> groups_of_pieces(
                p,
                quad_allowed,
            ) is Some,
        decreases pieces.len() - i,
    {
        let ghost rest = p.skip(i as int);
        assert(rest[0] == pieces@[i as int]@);
        assert(rest.drop_first() == p.skip(i + 1));
        if i + 1 == pieces.len() && quad_allowed {
            match read_ipv4(&pieces[i]) {
                Some((a, b, c, d)) => {
                    out.push((a as u16) * 256 + (b as u16));
                    out.push((c as u16) * 256 + (d as u16));
                    assert(groups_of_pieces(rest, quad_allowed) is Some);
                    assert(out@ == groups_of_pieces(p, quad_allowed)->0);
                    return Some(out);
                },
                None => {},
            }
        }
        match read_hex_group(&pieces[i]) {
            Some(g) => {
                let ghost before = out@;
                out.push(g);
                proof {
                    let tail = groups_of_pieces(p.skip(i + 1), quad_allowed);
                    if tail is Some {
                        assert(before + (seq![g] + tail->0) == (before + seq![g]) + tail->0);
                    }
                }
            },
            None => {
                assert(groups_of_pieces(rest, quad_allowed) is None);
                return None;
            },
        }
        i = i + 1;
    }
    assert(p.skip(pieces.len() as int).len() == 0);
    assert(out@ + Seq::<u16>::empty() == out@);
    Some(out)
}

/// Executable [`find_double_colon`].
pub fn double_colon(v: &Vec<char>) -> (r: Option<usize>)
    ensures
        r is Some == find_double_colon(v@, 0) is Some,
        r matches Some(k) ==> find_double_colon(v@, 0) == Some(k as int) && k + 2 <= v.len(),
{
    if v.len() < 2 {
        return None;
    }
    let mut i: usize = 0;
    while i + 1 < v.len()
        invariant
            i + 1 <= v.len(),
            v.len() >= 2,
            find_double_colon(v@, 0) == find_double_colon(v@, i as int),
        decreases v.len() - i,
    {
        if v[i] == ':' && v[i + 1] == ':' {
            return Some(i);
        }
        i = i + 1;
    }
    None
}

/// Executable [`parse_ipv6`].
pub fn read_ipv6(v: &Vec<char>) -> (r: Option<Vec<u16>>)
    ensures
        r is Some == parse_ipv6(v@) is Some,
        r matches Some(g) ==> parse_ipv6(v@) == Some(g@) && g@.len() == 8,
{
    match double_colon(v) {
        None => match read_groups(v, true) {
            Some(g) => if g.len() == 8 {
                Some(g)
            } else {
                None
            },
            None => None,
        },
        Some(k) => {
            let head_text = slice_of(v, 0, k);
            let tail_text = slice_of(v, k + 2, v.len());
            assert(head_text@ == v@.take(k as int));
            assert(tail_text@ == v@.skip(k + 2));
            match (read_groups(&head_text, false), read_groups(&tail_text, true)) {
                (Some(head), Some(tail)) => {
                    if head.len() > 7 || tail.len() > 7 - head.len() {
                        return None;
                    }
                    let mut out: Vec<u16> = head;
                    let ghost h = out@;
                    let gap: usize = 8 - out.len() - tail.len();
                    let mut z: usize = 0;
                    while z < gap
                        invariant
                            z <= gap,
                            out@ == h + Seq::new(z as nat, |i: int| 0u16),
                        decreases gap - z,
                    {
                        out.push(0u16);
                        z = z + 1;
                    }
                    let ghost filled = out@;
                    let mut j: usize = 0;
                    while j < tail.len()
                        invariant
                            j <= tail.len(),
                            out@ == filled + tail@.take(j as int),
                        decreases tail.len() - j,
                    {
                        out.push(tail[j]);
                        j = j + 1;
                    }
                    assert(tail@.take(tail.len() as int) == tail@);
                    Some(out)
                },
                _ => None,
            }
        },
    }
}

/// The private classes an address can fall in.
#[derive(Debug, Clone, Copy, PartialEq, Eq, Structural)]
pub enum AddressClass {
    /// Site-private space: 10/8, 172.16/12, 192.168/16, and fc00::/7.
    Private,
    /// Link-local space: 169.254/16 and fe80::/10.
    LinkLocal,
    /// The host itself: 127/8 and ::1.
    Loopback,
}

/// The class of an IPv4 address, told by its first two octets.
pub open spec fn v4_class(a: u8, b: u8) -> Option<AddressClass> {
    if a == 10 || (a == 172 && 16 <= b <= 31) || (a == 192 && b == 168) {
        Some(AddressClass::Private)
    } else if a == 169 && b == 254 {
        Some(AddressClass::LinkLocal)
    } else if a == 127 {
        Some(AddressClass::Loopback)
    } else {
        None
    }
}

/// The class of an IPv6 address given by its eight groups.
pub open spec fn v6_class(g: Seq<u16>) -> Option<AddressClass> {
    if 0xfe80 <= g[0] <= 0xfebf {
        Some(AddressClass::LinkLocal)
    } else if 0xfc00 <= g[0] <= 0xfdff {
        Some(AddressClass::Private)
    } else if g == seq![0u16, 0u16, 0u16, 0u16, 0u16, 0u16, 0u16, 1u16] {
        Some(AddressClass::Loopback)
    } else {
        None
    }
}

/// The class of the IPv4 address that a dotted-quad text denotes.
pub open spec fn ipv4_class(text: Seq<char>) -> Option<AddressClass> {
    match parse_ipv4(text) {
        Some(q) => v4_class(q.0, q.1),
        None => None,
    }
}

/// The class of the address that a text denotes; a text that is no address,
/// and an address outside the private classes, has none.
pub open spec fn address_class(text: Seq<char>) -> Option<AddressClass> {
    match parse_ipv4(text) {
        Some(q) => v4_class(q.0, q.1),
        None => match parse_ipv6(text) {
            Some(g) => v6_class(g),
            None => None,
        },
    }
}

/// Executable [`address_class`].
pub fn classify(text: &str) -> (r: Option<AddressClass>)
    ensures
        r == address_class(text@),
{
    let v = chars_of(text);
    match read_ipv4(&v) {
        Some((a, b, _c, _d)) => {
            if a == 10 || (a == 172 && 16 <= b && b <= 31) || (a == 192 && b == 168) {
                Some(AddressClass::Private)
            } else if a == 169 && b == 254 {
                Some(AddressClass::LinkLocal)
            } else if a == 127 {
                Some(AddressClass::Loopback)
            } else {
                None
            }
        },
        None => match read_ipv6(&v) {
            Some(g) => {
                if 0xfe80 <= g[0] && g[0] <= 0xfebf {
                    Some(AddressClass::LinkLocal)
                } else if 0xfc00 <= g[0] && g[0] <= 0xfdff {
                    Some(AddressClass::Private)
                } else if g[0] == 0 && g[1] == 0 && g[2] == 0 && g[3] == 0 && g[4] == 0 && g[5]
                    == 0 && g[6] == 0 && g[7] == 1 {
                    assert(g@ == seq![0u16, 0u16, 0u16, 0u16, 0u16, 0u16, 0u16, 1u16]);
                    Some(AddressClass::Loopback)
                } else {
                    None
                }
            },
            None => None,
        },
    }
}

/// Whether a text names the address that stands for "any": `0.0.0.0`, `::`, or
/// the `*` of a socket listing.
pub open spec fn is_unspecified(text: Seq<char>) -> bool {
    text == "0.0.0.0"@ || text == "::"@ || text == "*"@
}

/// Whether a text is an address of private space: one of site-private,
/// link-local or loopback space.
pub open spec fn is_private(text: Seq<char>) -> bool {
    address_class(text) is Some
}

/// The direction of a flow between a local and a remote address. A flow whose
/// remote side is unspecified is a listener and inbound; a flow whose two
/// sides are both addresses of private space stays on the local network;
/// every other flow leaves it.
pub open spec fn direction_of(local: Seq<char>, remote: Seq<char>) -> FlowDirection {
    if is_unspecified(remote) {
        FlowDirection::Inbound
    } else if is_private(local) && is_private(remote) {
        FlowDirection::Lateral
    } else {
        FlowDirection::Outbound
    }
}

/// Executable [`direction_of`].
pub fn infer_direction(local_ip: &str, remote_ip: &str) -> (r: FlowDirection)
    ensures
        r == direction_of(local_ip@, remote_ip@),
{
    if str_eq(remote_ip, "0.0.0.0") || str_eq(remote_ip, "::") || str_eq(remote_ip, "*") {
        return FlowDirection::Inbound;
    }
    match (classify(local_ip), classify(remote_ip)) {
        (Some(_), Some(_)) => FlowDirection::Lateral,
        _ => FlowDirection::Outbound,
    }
}

/// The address that stands for "any" is no IPv4 address of a private class.
pub proof fn lemma_unspecified_has_no_class(text: Seq<char>)
    requires
        is_unspecified(text),
    ensures
        ipv4_class(text) is None,
{
    reveal_strlit("0.0.0.0");
    reveal_strlit("::");
    reveal_strlit("*");
    if text == "0.0.0.0"@ {
        lemma_ipv4_round_trip(0, 0, 0, 0);
        assert(decimal(0) == seq!['0']);
        assert(ipv4_text(0, 0, 0, 0) =~= "0.0.0.0"@);
    } else {
        lemma_split_whole(text, '.');
    }
}

/// A flow whose remote side is unspecified is inbound. A flow between two
/// IPv4 addresses of private space, whichever of its ranges each lies in, is
/// lateral, and so is any flow with a specified remote side between two
/// addresses of private space. A flow with a specified remote side is
/// outbound as soon as one side is no address of private space.
pub proof fn lemma_direction_classification(local: Seq<char>, remote: Seq<char>)
    ensures
        is_unspecified(remote) ==> direction_of(local, remote) == FlowDirection::Inbound,
        ipv4_class(local) is Some && ipv4_class(remote) is Some ==> direction_of(local, remote)
            == FlowDirection::Lateral,
        !is_unspecified(remote) && is_private(local) && is_private(remote) ==> direction_of(
            local,
            remote,
        ) == FlowDirection::Lateral,
        !is_unspecified(remote) && !(is_private(local) && is_private(remote)) ==> direction_of(
            local,
            remote,
        ) == FlowDirection::Outbound,
{
    if is_unspecified(remote) {
        lemma_unspecified_has_no_class(remote);
    }
}

/// The port held in a 32-bit field of a kernel table. The field carries the
/// port in network byte order in its low 16 bits; what stands above them is
/// not part of the port.
pub open spec fn port_of_word(raw: u32) -> u16 {
    (((raw & 0xFFFF) >> 8) | ((raw & 0xFF) << 8)) as u16
}

/// Executable [`port_of_word`].
pub fn port_from_raw(raw: u32) -> (port: u16)
    ensures
        port == port_of_word(raw),
        port == ((raw % 256) * 256 + (raw / 256) % 256),
{
    let low: u32 = raw & 0xFFFF;
    let swapped: u32 = (low >> 8) | ((low & 0xFF) << 8);
    assert(swapped == ((raw & 0xFFFF) >> 8) | ((raw & 0xFF) << 8)) by (bit_vector)
        requires
            low == raw & 0xFFFF,
            swapped == (low >> 8) | ((low & 0xFF) << 8),
    ;
    assert(swapped <= 0xFFFF && swapped == ((raw % 256) * 256 + (raw / 256) % 256)) by (bit_vector)
        requires
            swapped == ((raw & 0xFFFF) >> 8) | ((raw & 0xFF) << 8),
    ;
    swapped as u16
}

/// For a 16-bit port word, swapping the two bytes of the whole word and
/// keeping the low 16 bits gives the same port.
pub proof fn lemma_port_byte_order(w: u32)
    requires
        w <= 0xFFFF,
    ensures
        port_of_word(w) == ((w >> 8) | (w << 8)) & 0xFFFF,
{
    assert((((w & 0xFFFF) >> 8) | ((w & 0xFF) << 8)) == ((w >> 8) | (w << 8)) & 0xFFFF && (((w
        & 0xFFFF) >> 8) | ((w & 0xFF) << 8)) <= 0xFFFF) by (bit_vector)
        requires
            w <= 0xFFFF,
    ;
}

} // verus!
