//! Internet addresses and their text forms.

use crate::number::{
    all_digits, digits_of, is_digit, lemma_digits_len, lemma_digits_round_trip, read_number,
    reading_of, write_number, Reading,
};
use crate::text::{
    append_chars, join, lemma_split_join, lemma_split_unbroken, piece, split, split_at, views,
};
use vstd::prelude::*;

verus! {

/// An IPv4 address: its four octets, the first one first.
#[derive(Clone, Copy, Debug, PartialEq, Eq, Structural)]
pub struct Ipv4Address {
    pub a: u8,
    pub b: u8,
    pub c: u8,
    pub d: u8,
}

/// An IPv6 address: its eight groups of sixteen bits, the first one first.
#[derive(Clone, Copy, Debug, PartialEq, Eq, Structural)]
pub struct Ipv6Address {
    pub g0: u16,
    pub g1: u16,
    pub g2: u16,
    pub g3: u16,
    pub g4: u16,
    pub g5: u16,
    pub g6: u16,
    pub g7: u16,
}

/// An address of either family.
#[derive(Clone, Copy, Debug, PartialEq, Eq, Structural)]
pub enum IpAddress {
    V4(Ipv4Address),
    V6(Ipv6Address),
}

impl Ipv4Address {
    /// The address `0.0.0.0`.
    pub open spec fn unspecified() -> Ipv4Address {
        Ipv4Address { a: 0, b: 0, c: 0, d: 0 }
    }

    /// The address `127.0.0.1`.
    pub open spec fn localhost() -> Ipv4Address {
        Ipv4Address { a: 127, b: 0, c: 0, d: 1 }
    }

    /// The address with the given octets.
    pub fn new(a: u8, b: u8, c: u8, d: u8) -> (address: Ipv4Address)
        ensures
            address == (Ipv4Address { a, b, c, d }),
    {
        Ipv4Address { a, b, c, d }
    }
}

impl Ipv6Address {
    /// The address `::`.
    pub open spec fn unspecified() -> Ipv6Address {
        Ipv6Address { g0: 0, g1: 0, g2: 0, g3: 0, g4: 0, g5: 0, g6: 0, g7: 0 }
    }

    /// The address `::1`.
    pub open spec fn localhost() -> Ipv6Address {
        Ipv6Address { g0: 0, g1: 0, g2: 0, g3: 0, g4: 0, g5: 0, g6: 0, g7: 1 }
    }

    /// The address with the given groups.
    pub fn new(
        g0: u16,
        g1: u16,
        g2: u16,
        g3: u16,
        g4: u16,
        g5: u16,
        g6: u16,
        g7: u16,
    ) -> (address: Ipv6Address)
        ensures
            address == (Ipv6Address { g0, g1, g2, g3, g4, g5, g6, g7 }),
    {
        Ipv6Address { g0, g1, g2, g3, g4, g5, g6, g7 }
    }
}

/// The octet that a piece of a dotted quad writes: one to three decimal
/// digits, without a leading zero before other digits, of a number up to 255.
pub open spec fn octet_of(piece: Seq<char>) -> Option<u8> {
    if 1 <= piece.len() <= 3 && (piece.len() == 1 || piece[0] != '0') {
        match reading_of(piece, 10, 255) {
            Reading::Number(n) => Some(n as u8),
            _ => None,
        }
    } else {
        None
    }
}

/// The IPv4 address that `text` writes as a dotted quad, if it writes one.
pub open spec fn ipv4_of(text: Seq<char>) -> Option<Ipv4Address> {
    let pieces = split(text, '.');
    if pieces.len() == 4 {
        match (octet_of(pieces[0]), octet_of(pieces[1]), octet_of(pieces[2]), octet_of(pieces[3])) {
            (Some(a), Some(b), Some(c), Some(d)) => Some(Ipv4Address { a, b, c, d }),
            _ => None,
        }
    } else {
        None
    }
}

/// The dotted quad of an IPv4 address.
pub open spec fn ipv4_text(address: Ipv4Address) -> Seq<char> {
    join(
        seq![
            digits_of(address.a as nat, 10),
            digits_of(address.b as nat, 10),
            digits_of(address.c as nat, 10),
            digits_of(address.d as nat, 10),
        ],
        '.',
    )
}

/// The group that a piece of an IPv6 address writes: one to four hexadecimal
/// digits.
pub open spec fn group_of(piece: Seq<char>) -> Option<u16> {
    if 1 <= piece.len() <= 4 {
        match reading_of(piece, 16, 0xffff) {
            Reading::Number(n) => Some(n as u16),
            _ => None,
        }
    } else {
        None
    }
}

/// The groups that the pieces write, if each of them writes one.
pub open spec fn groups_of(pieces: Seq<Seq<char>>) -> Option<Seq<u16>>
    decreases pieces.len(),
{
    if pieces.len() == 0 {
        Some(Seq::empty())
    } else {
        match (groups_of(pieces.drop_last()), group_of(pieces.last())) {
            (Some(groups), Some(group)) => Some(groups.push(group)),
            _ => None,
        }
    }
}

/// The two groups that hold an IPv4 address.
pub open spec fn quad_groups(quad: Ipv4Address) -> Seq<u16> {
    seq![(quad.a * 256 + quad.b) as u16, (quad.c * 256 + quad.d) as u16]
}

/// The groups that the last pieces of an IPv6 address write: each piece a
/// group, but that the last piece may be a dotted quad, which gives two.
pub open spec fn tail_groups_of(pieces: Seq<Seq<char>>) -> Option<Seq<u16>> {
    if pieces.len() > 0 && ipv4_of(pieces.last()) is Some {
        match groups_of(pieces.drop_last()) {
            Some(groups) => Some(groups + quad_groups(ipv4_of(pieces.last())->0)),
            None => None,
        }
    } else {
        groups_of(pieces)
    }
}

/// Where, at or after `from`, two colons first stand side by side in `s`.
pub open spec fn double_colon(s: Seq<char>, from: int) -> Option<int>
    decreases s.len() - from,
{
    if from < 0 || from + 1 >= s.len() {
        None
    } else if s[from] == ':' && s[from + 1] == ':' {
        Some(from)
    } else {
        double_colon(s, from + 1)
    }
}

/// The groups of a text between colons, or no groups for an empty text.
pub open spec fn head_groups_of(text: Seq<char>) -> Option<Seq<u16>> {
    if text.len() == 0 {
        Some(Seq::empty())
    } else {
        groups_of(split(text, ':'))
    }
}

/// As [`head_groups_of`], for the text that may end in a dotted quad.
pub open spec fn rest_groups_of(text: Seq<char>) -> Option<Seq<u16>> {
    if text.len() == 0 {
        Some(Seq::empty())
    } else {
        tail_groups_of(split(text, ':'))
    }
}

/// The eight groups that `text` writes as an IPv6 address, if it writes one:
/// either eight groups between colons, or fewer of them around one `::`, which
/// stands for the groups of zero that are missing. The last two groups may be
/// written as a dotted quad.
pub open spec fn ipv6_groups_of(text: Seq<char>) -> Option<Seq<u16>> {
    match double_colon(text, 0) {
        None => match tail_groups_of(split(text, ':')) {
            Some(groups) => if groups.len() == 8 {
                Some(groups)
            } else {
                None
            },
            None => None,
        },
        Some(at) => match (
            head_groups_of(text.subrange(0, at)),
            rest_groups_of(text.subrange(at + 2, text.len() as int)),
        ) {
            (Some(head), Some(rest)) => if head.len() + rest.len() <= 7 {
                Some(head + Seq::new((8 - head.len() - rest.len()) as nat, |i: int| 0u16) + rest)
            } else {
                None
            },
            _ => None,
        },
    }
}

impl Ipv6Address {
    /// The eight groups, the first one first.
    pub open spec fn groups(self) -> Seq<u16> {
        seq![self.g0, self.g1, self.g2, self.g3, self.g4, self.g5, self.g6, self.g7]
    }

    /// The address with the given eight groups.
    pub open spec fn of_groups(groups: Seq<u16>) -> Ipv6Address {
        Ipv6Address {
            g0: groups[0],
            g1: groups[1],
            g2: groups[2],
            g3: groups[3],
            g4: groups[4],
            g5: groups[5],
            g6: groups[6],
            g7: groups[7],
        }
    }
}

/// The IPv6 address that `text` writes, if it writes one.
pub open spec fn ipv6_of(text: Seq<char>) -> Option<Ipv6Address> {
    match ipv6_groups_of(text) {
        Some(groups) => Some(Ipv6Address::of_groups(groups)),
        None => None,
    }
}

/// The text of an IPv6 address: its eight groups in hexadecimal, without
/// leading zeros, between colons.
pub open spec fn ipv6_text(address: Ipv6Address) -> Seq<char> {
    join(address.groups().map_values(|group: u16| digits_of(group as nat, 16)), ':')
}

/// The address that `text` writes, of either family, if it writes one.
pub open spec fn ip_of(text: Seq<char>) -> Option<IpAddress> {
    match ipv4_of(text) {
        Some(address) => Some(IpAddress::V4(address)),
        None => match ipv6_of(text) {
            Some(address) => Some(IpAddress::V6(address)),
            None => None,
        },
    }
}

/// The text of an address of either family.
pub open spec fn ip_text(address: IpAddress) -> Seq<char> {
    match address {
        IpAddress::V4(inner) => ipv4_text(inner),
        IpAddress::V6(inner) => ipv6_text(inner),
    }
}

/// Reads a piece of a dotted quad as [`octet_of`] tells.
fn parse_octet(piece: &Vec<char>) -> (octet: Option<u8>)
    ensures
        octet == octet_of(piece@),
{
    if piece.len() < 1 || piece.len() > 3 {
        return None;
    }
    if piece.len() > 1 && piece[0] == '0' {
        return None;
    }
    match read_number(piece, 10, 255) {
        Reading::Number(n) => Some(n as u8),
        _ => None,
    }
}

/// Reads a dotted quad.
pub fn parse_ipv4(text: &Vec<char>) -> (address: Option<Ipv4Address>)
    ensures
        address == ipv4_of(text@),
{
    let pieces = split_at(text, '.');
    if pieces.len() != 4 {
        return None;
    }
    assert(views(pieces@)[0] == pieces@[0]@);
    assert(views(pieces@)[1] == pieces@[1]@);
    assert(views(pieces@)[2] == pieces@[2]@);
    assert(views(pieces@)[3] == pieces@[3]@);
    let a = parse_octet(&pieces[0]);
    let b = parse_octet(&pieces[1]);
    let c = parse_octet(&pieces[2]);
    let d = parse_octet(&pieces[3]);
    match (a, b, c, d) {
        (Some(a), Some(b), Some(c), Some(d)) => Some(Ipv4Address { a, b, c, d }),
        _ => None,
    }
}

/// Writes the dotted quad of an address.
pub fn write_ipv4(address: Ipv4Address) -> (text: Vec<char>)
    ensures
        text@ == ipv4_text(address),
{
    let ghost pieces = seq![
        digits_of(address.a as nat, 10),
        digits_of(address.b as nat, 10),
        digits_of(address.c as nat, 10),
        digits_of(address.d as nat, 10),
    ];
    let mut text = write_number(address.a as u32, 10);
    assert(text@ == join(pieces.subrange(0, 1), '.'));
    text.push('.');
    append_chars(&mut text, &write_number(address.b as u32, 10));
    assert(text@ == join(pieces.subrange(0, 2), '.')) by {
        assert(pieces.subrange(0, 2).drop_last() =~= pieces.subrange(0, 1));
    }
    text.push('.');
    append_chars(&mut text, &write_number(address.c as u32, 10));
    assert(text@ == join(pieces.subrange(0, 3), '.')) by {
        assert(pieces.subrange(0, 3).drop_last() =~= pieces.subrange(0, 2));
    }
    text.push('.');
    append_chars(&mut text, &write_number(address.d as u32, 10));
    assert(text@ == join(pieces, '.')) by {
        assert(pieces.drop_last() =~= pieces.subrange(0, 3));
    }
    text
}

/// Reads a piece of an IPv6 address as [`group_of`] tells.
fn parse_group(piece: &Vec<char>) -> (group: Option<u16>)
    ensures
        group == group_of(piece@),
{
    if piece.len() < 1 || piece.len() > 4 {
        return None;
    }
    match read_number(piece, 16, 0xffff) {
        Reading::Number(n) => Some(n as u16),
        _ => None,
    }
}

/// Where some pieces write no groups, no longer run of pieces does.
proof fn lemma_groups_of_prefix(pieces: Seq<Seq<char>>, count: int)
    requires
        0 <= count <= pieces.len(),
        groups_of(pieces.subrange(0, count)) is None,
    ensures
        groups_of(pieces) is None,
    decreases pieces.len() - count,
{
    if count < pieces.len() {
        assert(pieces.subrange(0, count + 1).drop_last() =~= pieces.subrange(0, count));
        lemma_groups_of_prefix(pieces, count + 1);
    } else {
        assert(pieces.subrange(0, count) =~= pieces);
    }
}

/// Reads the first `count` pieces as groups.
fn parse_groups(pieces: &Vec<Vec<char>>, count: usize) -> (groups: Option<Vec<u16>>)
    requires
        count <= pieces.len(),
    ensures
        match groups {
            Some(found) => groups_of(views(pieces@).subrange(0, count as int)) == Some(found@),
            None => groups_of(views(pieces@).subrange(0, count as int)) is None,
        },
{
    let ghost all = views(pieces@).subrange(0, count as int);
    let mut found: Vec<u16> = Vec::new();
    let mut i: usize = 0;
    assert(all.subrange(0, 0) =~= Seq::<Seq<char>>::empty());
    while i < count
        invariant
            i <= count <= pieces.len(),
            all == views(pieces@).subrange(0, count as int),
            groups_of(all.subrange(0, i as int)) == Some(found@),
        decreases count - i,
    {
        assert(all.subrange(0, i + 1).drop_last() =~= all.subrange(0, i as int));
        assert(all.subrange(0, i + 1).last() == pieces@[i as int]@);
        match parse_group(&pieces[i]) {
            Some(group) => {
                found.push(group);
            },
            None => {
                proof {
                    lemma_groups_of_prefix(all, i + 1);
                }
                return None;
            },
        }
        i += 1;
    }
    assert(all.subrange(0, count as int) =~= all);
    Some(found)
}

/// Reads pieces as [`tail_groups_of`] tells.
fn parse_tail_groups(pieces: &Vec<Vec<char>>) -> (groups: Option<Vec<u16>>)
    ensures
        match groups {
            Some(found) => tail_groups_of(views(pieces@)) == Some(found@),
            None => tail_groups_of(views(pieces@)) is None,
        },
{
    let n = pieces.len();
    assert(views(pieces@).subrange(0, n as int) =~= views(pieces@));
    if n == 0 {
        return parse_groups(pieces, 0);
    }
    assert(views(pieces@).last() == pieces@[n - 1]@);
    assert(views(pieces@).drop_last() =~= views(pieces@).subrange(0, n - 1));
    match parse_ipv4(&pieces[n - 1]) {
        Some(quad) => match parse_groups(pieces, n - 1) {
            Some(mut found) => {
                let ghost before = found@;
                found.push((quad.a as u16) * 256 + quad.b as u16);
                found.push((quad.c as u16) * 256 + quad.d as u16);
                assert(found@ =~= before + quad_groups(quad));
                Some(found)
            },
            None => None,
        },
        None => parse_groups(pieces, n),
    }
}

/// Finds [`double_colon`] from the start of the text.
fn find_double_colon(text: &Vec<char>) -> (at: Option<usize>)
    ensures
        match at {
            Some(i) => double_colon(text@, 0) == Some(i as int) && i + 2 <= text.len(),
            None => double_colon(text@, 0) is None,
        },
{
    let mut i: usize = 0;
    while i < text.len() && i + 1 < text.len()
        invariant
            i <= text.len(),
            double_colon(text@, 0) == double_colon(text@, i as int),
        decreases text.len() - i,
    {
        if text[i] == ':' && text[i + 1] == ':' {
            return Some(i);
        }
        i += 1;
    }
    None
}

/// Reads the eight groups of an IPv6 address.
fn parse_ipv6_groups(text: &Vec<char>) -> (groups: Option<Vec<u16>>)
    ensures
        match groups {
            Some(found) => ipv6_groups_of(text@) == Some(found@) && found.len() == 8,
            None => ipv6_groups_of(text@) is None,
        },
{
    match find_double_colon(text) {
        None => {
            let pieces = split_at(text, ':');
            match parse_tail_groups(&pieces) {
                Some(found) => if found.len() == 8 {
                    Some(found)
                } else {
                    None
                },
                None => None,
            }
        },
        Some(at) => {
            let head_text = piece(text, 0, at);
            let rest_text = piece(text, at + 2, text.len());
            let head = if head_text.len() == 0 {
                Some(Vec::new())
            } else {
                let pieces = split_at(&head_text, ':');
                assert(views(pieces@).subrange(0, pieces.len() as int) =~= views(pieces@));
                parse_groups(&pieces, pieces.len())
            };
            let rest = if rest_text.len() == 0 {
                Some(Vec::new())
            } else {
                let pieces = split_at(&rest_text, ':');
                parse_tail_groups(&pieces)
            };
            match (head, rest) {
                (Some(mut found), Some(rest)) => {
                    if found.len() > 7 || rest.len() > 7 - found.len() {
                        return None;
                    }
                    let ghost head_groups = found@;
                    let zeros: usize = 8 - found.len() - rest.len();
                    let mut i: usize = 0;
                    while i < zeros
                        invariant
                            i <= zeros,
                            found@ == head_groups + Seq::new(i as nat, |k: int| 0u16),
                        decreases zeros - i,
                    {
                        found.push(0);
                        assert(found@ =~= head_groups + Seq::new((i + 1) as nat, |k: int| 0u16));
                        i += 1;
                    }
                    let ghost padded = found@;
                    let mut j: usize = 0;
                    while j < rest.len()
                        invariant
                            j <= rest.len(),
                            found@ == padded + rest@.subrange(0, j as int),
                        decreases rest.len() - j,
                    {
                        found.push(rest[j]);
                        assert(found@ =~= padded + rest@.subrange(0, j + 1));
                        j += 1;
                    }
                    assert(rest@.subrange(0, rest.len() as int) =~= rest@);
                    Some(found)
                },
                _ => None,
            }
        },
    }
}

/// Reads an IPv6 address.
pub fn parse_ipv6(text: &Vec<char>) -> (address: Option<Ipv6Address>)
    ensures
        address == ipv6_of(text@),
{
    match parse_ipv6_groups(text) {
        Some(groups) => Some(
            Ipv6Address {
                g0: groups[0],
                g1: groups[1],
                g2: groups[2],
                g3: groups[3],
                g4: groups[4],
                g5: groups[5],
                g6: groups[6],
                g7: groups[7],
            },
        ),
        None => None,
    }
}

/// Writes the text of an IPv6 address.
pub fn write_ipv6(address: Ipv6Address) -> (text: Vec<char>)
    ensures
        text@ == ipv6_text(address),
{
    let mut groups: Vec<u16> = Vec::new();
    groups.push(address.g0);
    groups.push(address.g1);
    groups.push(address.g2);
    groups.push(address.g3);
    groups.push(address.g4);
    groups.push(address.g5);
    groups.push(address.g6);
    groups.push(address.g7);
    assert(groups@ =~= address.groups());
    let ghost pieces = address.groups().map_values(|group: u16| digits_of(group as nat, 16));
    let mut text = write_number(groups[0] as u32, 16);
    let mut i: usize = 1;
    assert(pieces.subrange(0, 1)[0] == pieces[0]);
    while i < 8
        invariant
            1 <= i <= 8,
            groups@ == address.groups(),
            pieces == address.groups().map_values(|group: u16| digits_of(group as nat, 16)),
            text@ == join(pieces.subrange(0, i as int), ':'),
        decreases 8 - i,
    {
        text.push(':');
        append_chars(&mut text, &write_number(groups[i] as u32, 16));
        assert(pieces.subrange(0, i + 1).drop_last() =~= pieces.subrange(0, i as int));
        assert(pieces.subrange(0, i + 1).last() == pieces[i as int]);
        i += 1;
    }
    assert(pieces.subrange(0, 8) =~= pieces);
    text
}

/// Reads an address of either family.
pub fn parse_ip(text: &Vec<char>) -> (address: Option<IpAddress>)
    ensures
        address == ip_of(text@),
{
    match parse_ipv4(text) {
        Some(address) => Some(IpAddress::V4(address)),
        None => match parse_ipv6(text) {
            Some(address) => Some(IpAddress::V6(address)),
            None => None,
        },
    }
}

/// Writes the text of an address of either family.
pub fn write_ip(address: IpAddress) -> (text: Vec<char>)
    ensures
        text@ == ip_text(address),
{
    match address {
        IpAddress::V4(inner) => write_ipv4(inner),
        IpAddress::V6(inner) => write_ipv6(inner),
    }
}

/// Digits are neither dots nor colons.
proof fn lemma_digits_plain(s: Seq<char>, radix: nat)
    requires
        all_digits(s, radix),
    ensures
        !s.contains('.'),
        !s.contains(':'),
{
    if s.contains('.') {
        let k = choose|k: int| 0 <= k < s.len() && s[k] == '.';
        assert(is_digit(s[k], radix));
    }
    if s.contains(':') {
        let k = choose|k: int| 0 <= k < s.len() && s[k] == ':';
        assert(is_digit(s[k], radix));
    }
}

/// The decimal digits of an octet are read back as the octet.
proof fn lemma_octet_round_trip(octet: u8)
    ensures
        octet_of(digits_of(octet as nat, 10)) == Some(octet),
        !digits_of(octet as nat, 10).contains('.'),
{
    lemma_digits_round_trip(octet as nat, 10);
    assert(vstd::arithmetic::power::pow(10, 3) == 1000) by {
        reveal_with_fuel(vstd::arithmetic::power::pow, 4);
    }
    lemma_digits_len(octet as nat, 10, 3, 1000);
    lemma_digits_plain(digits_of(octet as nat, 10), 10);
}

/// The hexadecimal digits of a group are read back as the group.
proof fn lemma_group_round_trip(group: u16)
    ensures
        group_of(digits_of(group as nat, 16)) == Some(group),
        !digits_of(group as nat, 16).contains(':'),
        !digits_of(group as nat, 16).contains('.'),
        digits_of(group as nat, 16).len() > 0,
{
    lemma_digits_round_trip(group as nat, 16);
    assert(vstd::arithmetic::power::pow(16, 4) == 0x10000) by {
        reveal_with_fuel(vstd::arithmetic::power::pow, 5);
    }
    lemma_digits_len(group as nat, 16, 4, 0x10000);
    lemma_digits_plain(digits_of(group as nat, 16), 16);
}

/// Reading the text of an IPv4 address gives the address.
pub proof fn lemma_ipv4_round_trip(address: Ipv4Address)
    ensures
        ipv4_of(ipv4_text(address)) == Some(address),
{
    let pieces = seq![
        digits_of(address.a as nat, 10),
        digits_of(address.b as nat, 10),
        digits_of(address.c as nat, 10),
        digits_of(address.d as nat, 10),
    ];
    lemma_octet_round_trip(address.a);
    lemma_octet_round_trip(address.b);
    lemma_octet_round_trip(address.c);
    lemma_octet_round_trip(address.d);
    lemma_split_join(pieces, '.');
}

/// The groups written in hexadecimal are read back as the groups.
proof fn lemma_groups_round_trip(groups: Seq<u16>)
    ensures
        groups_of(groups.map_values(|group: u16| digits_of(group as nat, 16))) == Some(groups),
    decreases groups.len(),
{
    let pieces = groups.map_values(|group: u16| digits_of(group as nat, 16));
    if groups.len() > 0 {
        lemma_groups_round_trip(groups.drop_last());
        lemma_group_round_trip(groups.last());
        assert(pieces.drop_last() =~= groups.drop_last().map_values(
            |group: u16| digits_of(group as nat, 16),
        ));
        assert(groups.drop_last().push(groups.last()) =~= groups);
    } else {
        assert(groups =~= Seq::<u16>::empty());
    }
}

/// Every colon of the text is followed by a character that is none.
pub open spec fn colons_apart(s: Seq<char>) -> bool {
    forall|i: int|
        0 <= i < s.len() && #[trigger] s[i] == ':' ==> i + 1 < s.len() && s[i + 1] != ':'
}

/// Non-empty pieces without colons, joined by colons, keep the colons apart.
proof fn lemma_join_colons_apart(pieces: Seq<Seq<char>>)
    requires
        forall|i: int|
            0 <= i < pieces.len() ==> (#[trigger] pieces[i]).len() > 0 && !pieces[i].contains(':'),
    ensures
        colons_apart(join(pieces, ':')),
    decreases pieces.len(),
{
    let text = join(pieces, ':');
    if pieces.len() == 0 {
    } else if pieces.len() == 1 {
        assert forall|i: int| 0 <= i < text.len() implies text[i] != ':' by {
            assert(pieces[0].contains(text[i]));
        }
    } else {
        let before = join(pieces.drop_last(), ':');
        let last = pieces.last();
        lemma_join_colons_apart(pieces.drop_last());
        assert(pieces[pieces.len() - 1] == last);
        assert forall|i: int| 0 <= i < text.len() && #[trigger] text[i] == ':' implies i + 1
            < text.len() && text[i + 1] != ':' by {
            if i < before.len() {
                assert(before[i] == ':');
                assert(text[i + 1] == before[i + 1]);
            } else if i == before.len() {
                assert(text[i + 1] == last[0]);
                assert(last.contains(last[0]));
            } else {
                assert(text[i] == last[i - before.len() - 1]);
                assert(last.contains(text[i]));
            }
        }
    }
}

/// Where colons are apart, no two stand side by side.
proof fn lemma_no_double_colon(s: Seq<char>, from: int)
    requires
        colons_apart(s),
        0 <= from,
    ensures
        double_colon(s, from) is None,
    decreases s.len() - from,
{
    if from + 1 < s.len() {
        lemma_no_double_colon(s, from + 1);
    }
}

/// Reading the text of an IPv6 address gives the address.
pub proof fn lemma_ipv6_round_trip(address: Ipv6Address)
    ensures
        ipv6_of(ipv6_text(address)) == Some(address),
        ipv4_of(ipv6_text(address)) is None,
{
    let groups = address.groups();
    let pieces = groups.map_values(|group: u16| digits_of(group as nat, 16));
    let text = ipv6_text(address);
    assert forall|i: int| 0 <= i < pieces.len() implies (#[trigger] pieces[i]).len() > 0
        && !pieces[i].contains(':') && !pieces[i].contains('.') by {
        lemma_group_round_trip(groups[i]);
    }
    lemma_split_join(pieces, ':');
    lemma_join_colons_apart(pieces);
    lemma_no_double_colon(text, 0);
    lemma_groups_round_trip(groups);
    lemma_split_unbroken(pieces.last(), '.');
    assert(ipv4_of(pieces.last()) is None);
    assert(Ipv6Address::of_groups(groups) == address);
    lemma_join_plain(pieces);
    lemma_split_unbroken(text, '.');
}

/// Pieces without dots, joined by colons, hold no dot.
proof fn lemma_join_plain(pieces: Seq<Seq<char>>)
    requires
        forall|i: int| 0 <= i < pieces.len() ==> !(#[trigger] pieces[i]).contains('.'),
    ensures
        !join(pieces, ':').contains('.'),
    decreases pieces.len(),
{
    let text = join(pieces, ':');
    if pieces.len() == 0 {
    } else if pieces.len() == 1 {
    } else {
        let before = join(pieces.drop_last(), ':');
        let last = pieces.last();
        lemma_join_plain(pieces.drop_last());
        assert(pieces[pieces.len() - 1] == last);
        if text.contains('.') {
            let k = choose|k: int| 0 <= k < text.len() && text[k] == '.';
            if k < before.len() {
                assert(before.contains(before[k]));
            } else if k > before.len() {
                assert(last.contains(last[k - before.len() - 1]));
            }
        }
    }
}

/// Reading the text of an address gives the address.
pub proof fn lemma_ip_round_trip(address: IpAddress)
    ensures
        ip_of(ip_text(address)) == Some(address),
{
    match address {
        IpAddress::V4(inner) => lemma_ipv4_round_trip(inner),
        IpAddress::V6(inner) => lemma_ipv6_round_trip(inner),
    }
}

} // verus!
