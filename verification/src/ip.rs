//! Internet addresses as the service writes them.

use vstd::prelude::*;
use crate::json::{Json, JsonValue};
use crate::shape::FromJson;
use crate::text::{chars_of, decimal, parse_digits};

verus! {

/// An Internet address: the four bytes of version 4, or the eight groups of
/// version 6.
#[derive(Debug, Clone, Copy, PartialEq, Eq, Structural)]
pub enum Ip {
    V4(u8, u8, u8, u8),
    V6(u16, u16, u16, u16, u16, u16, u16, u16),
}

/// The parts of `s` that stand between the occurrences of `sep`: one more part
/// than there are occurrences.
pub open spec fn split(s: Seq<char>, sep: char) -> Seq<Seq<char>>
    decreases s.len(),
{
    if s.len() == 0 {
        seq![Seq::<char>::empty()]
    } else {
        let before = split(s.drop_last(), sep);
        if s.last() == sep {
            before.push(Seq::empty())
        } else {
            before.drop_last().push(before.last().push(s.last()))
        }
    }
}

/// One part of a dotted address: one to three decimal digits, no zero in front
/// of another digit, at most 255.
pub open spec fn octet(t: Seq<char>) -> Option<u8> {
    match decimal(t) {
        Some(n) => if t.len() <= 3 && (t.len() == 1 || t[0] != '0') && n <= 255 {
            Some(n as u8)
        } else {
            None
        },
        None => None,
    }
}

/// The four bytes that a dotted address writes.
pub open spec fn dotted(s: Seq<char>) -> Option<(u8, u8, u8, u8)> {
    let parts = split(s, '.');
    if parts.len() == 4 && octet(parts[0]) is Some && octet(parts[1]) is Some && octet(
        parts[2],
    ) is Some && octet(parts[3]) is Some {
        Some((octet(parts[0])->0, octet(parts[1])->0, octet(parts[2])->0, octet(parts[3])->0))
    } else {
        None
    }
}

/// The value of a hexadecimal digit, in either case.
pub open spec fn hex_digit(c: char) -> Option<nat> {
    if '0' <= c <= '9' {
        Some((c as nat - '0' as nat) as nat)
    } else if 'a' <= c <= 'f' {
        Some((c as nat - 'a' as nat + 10) as nat)
    } else if 'A' <= c <= 'F' {
        Some((c as nat - 'A' as nat + 10) as nat)
    } else {
        None
    }
}

/// The number that a run of hexadecimal digits writes.
pub open spec fn hex_value(t: Seq<char>) -> nat
    decreases t.len(),
{
    if t.len() == 0 {
        0
    } else {
        hex_value(t.drop_last()) * 16 + hex_digit(t.last())->0
    }
}

/// One group of a version 6 address: one to four hexadecimal digits.
pub open spec fn hex_group(t: Seq<char>) -> Option<u16> {
    if 1 <= t.len() <= 4 && (forall|i: int|
        0 <= i < t.len() ==> (#[trigger] hex_digit(t[i])) is Some) {
        Some(hex_value(t) as u16)
    } else {
        None
    }
}

/// The groups that `parts` write, each part being one group.
pub open spec fn hex_groups(parts: Seq<Seq<char>>) -> Option<Seq<u16>> {
    if forall|i: int| 0 <= i < parts.len() ==> (#[trigger] hex_group(parts[i])) is Some {
        Some(Seq::new(parts.len(), |i: int| hex_group(parts[i])->0))
    } else {
        None
    }
}

/// The two groups that hold the four bytes of a dotted address.
pub open spec fn dotted_groups(quad: (u8, u8, u8, u8)) -> Seq<u16> {
    seq![(quad.0 * 256 + quad.1) as u16, (quad.2 * 256 + quad.3) as u16]
}

/// The groups that `parts` write, where the last part may be a dotted address,
/// which stands for two groups.
pub open spec fn groups(parts: Seq<Seq<char>>) -> Option<Seq<u16>> {
    if parts.len() == 0 {
        None
    } else {
        match hex_groups(parts) {
            Some(all) => Some(all),
            None => match (hex_groups(parts.drop_last()), dotted(parts.last())) {
                (Some(front), Some(quad)) => Some(front + dotted_groups(quad)),
                _ => None,
            },
        }
    }
}

/// Where the first pair of colons at or after `from` begins; the length of `s`
/// where there is none.
pub open spec fn pair_at(s: Seq<char>, from: int) -> int
    decreases s.len() - from,
{
    if from < 0 || from + 1 >= s.len() {
        s.len() as int
    } else if s[from] == ':' && s[from + 1] == ':' {
        from
    } else {
        pair_at(s, from + 1)
    }
}

/// The eight groups that a version 6 address writes. Without a pair of colons
/// it has all eight; with one, the pair stands for the groups of zeros that
/// are missing, at least one.
pub open spec fn grouped(s: Seq<char>) -> Option<Seq<u16>> {
    let p = pair_at(s, 0);
    if p == s.len() {
        match groups(split(s, ':')) {
            Some(all) => if all.len() == 8 {
                Some(all)
            } else {
                None
            },
            None => None,
        }
    } else {
        let head = s.subrange(0, p);
        let tail = s.subrange(p + 2, s.len() as int);
        let front = if head.len() == 0 {
            Some(Seq::<u16>::empty())
        } else {
            hex_groups(split(head, ':'))
        };
        let back = if tail.len() == 0 {
            Some(Seq::<u16>::empty())
        } else {
            groups(split(tail, ':'))
        };
        match (front, back) {
            (Some(f), Some(b)) => if f.len() + b.len() <= 7 {
                Some(f + Seq::new((8 - f.len() - b.len()) as nat, |i: int| 0u16) + b)
            } else {
                None
            },
            _ => None,
        }
    }
}

/// A grouped address always has eight groups.
pub proof fn lemma_grouped_has_eight(s: Seq<char>)
    ensures
        grouped(s) matches Some(g) ==> g.len() == 8,
{
}

/// The address that a text writes: a dotted address of version 4, or a grouped
/// one of version 6.
pub open spec fn ip_of_text(s: Seq<char>) -> Option<Ip> {
    match dotted(s) {
        Some(quad) => Some(Ip::V4(quad.0, quad.1, quad.2, quad.3)),
        None => match grouped(s) {
            Some(g) => Some(Ip::V6(g[0], g[1], g[2], g[3], g[4], g[5], g[6], g[7])),
            None => None,
        },
    }
}

/// The views of the parts.
pub open spec fn part_views(parts: Seq<Vec<char>>) -> Seq<Seq<char>> {
    Seq::new(parts.len(), |i: int| parts[i]@)
}

/// Cuts `chars` at each occurrence of `sep`.
fn split_chars(chars: &Vec<char>, sep: char) -> (parts: Vec<Vec<char>>)
    ensures
        part_views(parts@) == split(chars@, sep),
        parts@.len() >= 1,
{
    let mut parts: Vec<Vec<char>> = Vec::new();
    let mut current: Vec<char> = Vec::new();
    let mut i: usize = 0;
    assert(chars@.take(0) =~= Seq::<char>::empty());
    assert(part_views(parts@).push(current@) =~= seq![Seq::<char>::empty()]);
    while i < chars.len()
        invariant
            i <= chars.len(),
            part_views(parts@).push(current@) == split(chars@.take(i as int), sep),
        decreases chars.len() - i,
    {
        let c = chars[i];
        let ghost before = split(chars@.take(i as int), sep);
        let ghost done = part_views(parts@);
        let ghost open = current@;
        proof {
            assert(chars@.take(i + 1).drop_last() =~= chars@.take(i as int));
            assert(chars@.take(i + 1).last() == c);
            assert(before.last() == open);
            assert(before.drop_last() =~= done);
        }
        if c == sep {
            parts.push(current);
            current = Vec::new();
            assert(part_views(parts@) =~= before);
            assert(part_views(parts@).push(current@) =~= before.push(Seq::empty()));
        } else {
            current.push(c);
            assert(part_views(parts@).push(current@) =~= before.drop_last().push(
                before.last().push(c),
            ));
        }
        i += 1;
    }
    assert(chars@.take(i as int) =~= chars@);
    let ghost done = part_views(parts@);
    let ghost open = current@;
    parts.push(current);
    assert(part_views(parts@) =~= done.push(open));
    parts
}

/// Reads one part of a dotted address.
fn parse_octet(chars: &Vec<char>) -> (byte: Option<u8>)
    ensures
        byte == octet(chars@),
{
    if chars.len() > 3 || (chars.len() > 1 && chars[0] == '0') {
        return None;
    }
    match parse_digits(chars, 255) {
        Some(n) => Some(n as u8),
        None => None,
    }
}

/// Reads a dotted address of version 4.
fn parse_dotted(chars: &Vec<char>) -> (quad: Option<(u8, u8, u8, u8)>)
    ensures
        quad == dotted(chars@),
{
    let parts = split_chars(chars, '.');
    if parts.len() != 4 {
        return None;
    }
    assert(part_views(parts@)[0] == parts@[0]@);
    assert(part_views(parts@)[1] == parts@[1]@);
    assert(part_views(parts@)[2] == parts@[2]@);
    assert(part_views(parts@)[3] == parts@[3]@);
    let a = parse_octet(&parts[0]);
    let b = parse_octet(&parts[1]);
    let c = parse_octet(&parts[2]);
    let d = parse_octet(&parts[3]);
    match (a, b, c, d) {
        (Some(a), Some(b), Some(c), Some(d)) => Some((a, b, c, d)),
        _ => None,
    }
}

/// Reads one hexadecimal digit.
fn parse_hex_digit(c: char) -> (digit: Option<u16>)
    ensures
        digit matches Some(d) ==> hex_digit(c) == Some(d as nat) && d < 16,
        digit is None ==> hex_digit(c) is None,
{
    if c >= '0' && c <= '9' {
        Some((c as u32 - '0' as u32) as u16)
    } else if c >= 'a' && c <= 'f' {
        Some((c as u32 - 'a' as u32 + 10) as u16)
    } else if c >= 'A' && c <= 'F' {
        Some((c as u32 - 'A' as u32 + 10) as u16)
    } else {
        None
    }
}

/// Reads one group of a version 6 address.
fn parse_hex_group(chars: &Vec<char>) -> (group: Option<u16>)
    ensures
        group == hex_group(chars@),
{
    if chars.len() == 0 || chars.len() > 4 {
        return None;
    }
    let mut value: u32 = 0;
    let mut bound: u32 = 1;
    let mut i: usize = 0;
    while i < chars.len()
        invariant
            i <= chars.len() <= 4,
            forall|k: int| 0 <= k < i ==> (#[trigger] hex_digit(chars@[k])) is Some,
            value == hex_value(chars@.take(i as int)),
            value < bound,
            i == 0 ==> bound == 1,
            i == 1 ==> bound == 16,
            i == 2 ==> bound == 256,
            i == 3 ==> bound == 4096,
            i == 4 ==> bound == 65536,
        decreases chars.len() - i,
    {
        match parse_hex_digit(chars[i]) {
            Some(d) => {
                proof {
                    assert(chars@.take(i + 1).drop_last() =~= chars@.take(i as int));
                    assert(chars@.take(i + 1).last() == chars@[i as int]);
                }
                value = value * 16 + d as u32;
                bound = bound * 16;
            },
            None => {
                return None;
            },
        }
        i += 1;
    }
    assert(chars@.take(i as int) =~= chars@);
    Some(value as u16)
}

/// Reads each part as one group.
fn parse_hex_groups(parts: &Vec<Vec<char>>, count: usize) -> (read: Option<Vec<u16>>)
    requires
        count <= parts@.len(),
    ensures
        read matches Some(g) ==> hex_groups(part_views(parts@).take(count as int)) == Some(g@),
        read is None ==> hex_groups(part_views(parts@).take(count as int)) is None,
{
    let ghost texts = part_views(parts@).take(count as int);
    let mut out: Vec<u16> = Vec::new();
    let mut i: usize = 0;
    while i < count
        invariant
            i <= count <= parts@.len(),
            texts == part_views(parts@).take(count as int),
            out@.len() == i,
            forall|k: int| 0 <= k < i ==> hex_group(#[trigger] texts[k]) == Some(out@[k]),
        decreases count - i,
    {
        assert(texts[i as int] == parts@[i as int]@);
        match parse_hex_group(&parts[i]) {
            Some(group) => {
                out.push(group);
            },
            None => {
                assert(hex_group(texts[i as int]) is None);
                return None;
            },
        }
        i += 1;
    }
    proof {
        assert forall|k: int| 0 <= k < texts.len() implies (#[trigger] hex_group(
            texts[k],
        )) is Some by {
            assert(hex_group(texts[k]) == Some(out@[k]));
        }
        assert(out@ =~= hex_groups(texts)->0);
    }
    Some(out)
}

/// Reads the parts as groups, the last part being one group or a dotted
/// address.
fn parse_groups(parts: &Vec<Vec<char>>) -> (read: Option<Vec<u16>>)
    ensures
        read matches Some(g) ==> groups(part_views(parts@)) == Some(g@),
        read is None ==> groups(part_views(parts@)) is None,
{
    let n = parts.len();
    if n == 0 {
        return None;
    }
    let ghost texts = part_views(parts@);
    assert(texts.take(n as int) =~= texts);
    assert(texts.take(n - 1) =~= texts.drop_last());
    assert(texts.last() == parts@[n - 1]@);
    match parse_hex_groups(parts, n) {
        Some(all) => Some(all),
        None => match (parse_hex_groups(parts, n - 1), parse_dotted(&parts[n - 1])) {
            (Some(front), Some(quad)) => {
                let mut out = front;
                let ghost first = out@;
                out.push(quad.0 as u16 * 256 + quad.1 as u16);
                out.push(quad.2 as u16 * 256 + quad.3 as u16);
                assert(out@ =~= first + dotted_groups(quad));
                Some(out)
            },
            _ => None,
        },
    }
}

/// Finds the first pair of colons.
fn find_pair(chars: &Vec<char>) -> (at: usize)
    ensures
        at == pair_at(chars@, 0),
        at <= chars@.len(),
        at < chars@.len() ==> at + 2 <= chars@.len(),
{
    let mut i: usize = 0;
    while i < chars.len() && i + 1 < chars.len()
        invariant
            i <= chars.len(),
            pair_at(chars@, 0) == pair_at(chars@, i as int),
        decreases chars.len() - i,
    {
        if chars[i] == ':' && chars[i + 1] == ':' {
            return i;
        }
        i += 1;
    }
    chars.len()
}

/// Copies the characters from `from` up to `to`.
fn copy_range(chars: &Vec<char>, from: usize, to: usize) -> (part: Vec<char>)
    requires
        from <= to <= chars@.len(),
    ensures
        part@ == chars@.subrange(from as int, to as int),
{
    let mut part: Vec<char> = Vec::new();
    let mut i: usize = from;
    while i < to
        invariant
            from <= i <= to <= chars@.len(),
            part@ == chars@.subrange(from as int, i as int),
        decreases to - i,
    {
        part.push(chars[i]);
        assert(chars@.subrange(from as int, i + 1) =~= chars@.subrange(from as int, i as int).push(
            chars@[i as int],
        ));
        i += 1;
    }
    part
}

/// Reads a grouped address of version 6.
fn parse_grouped(chars: &Vec<char>) -> (read: Option<Vec<u16>>)
    ensures
        read matches Some(g) ==> grouped(chars@) == Some(g@) && g@.len() == 8,
        read is None ==> grouped(chars@) is None,
{
    let p = find_pair(chars);
    if p == chars.len() {
        let parts = split_chars(chars, ':');
        return match parse_groups(&parts) {
            Some(all) => if all.len() == 8 {
                Some(all)
            } else {
                None
            },
            None => None,
        };
    }
    let head = copy_range(chars, 0, p);
    let tail = copy_range(chars, p + 2, chars.len());
    let front = if head.len() == 0 {
        Some(Vec::new())
    } else {
        let parts = split_chars(&head, ':');
        assert(part_views(parts@).take(parts@.len() as int) =~= part_views(parts@));
        parse_hex_groups(&parts, parts.len())
    };
    let back = if tail.len() == 0 {
        Some(Vec::new())
    } else {
        let parts = split_chars(&tail, ':');
        parse_groups(&parts)
    };
    match (front, back) {
        (Some(f), Some(b)) => {
            if f.len() > 7 || b.len() > 7 - f.len() {
                return None;
            }
            let zeros: usize = 8 - f.len() - b.len();
            let mut out = f;
            let ghost first = out@;
            let mut i: usize = 0;
            while i < zeros
                invariant
                    i <= zeros,
                    out@ == first + Seq::new(i as nat, |k: int| 0u16),
                decreases zeros - i,
            {
                out.push(0);
                assert(out@ =~= first + Seq::new((i + 1) as nat, |k: int| 0u16));
                i += 1;
            }
            let ghost padded = out@;
            let mut j: usize = 0;
            while j < b.len()
                invariant
                    j <= b@.len(),
                    out@ == padded + b@.take(j as int),
                decreases b.len() - j,
            {
                out.push(b[j]);
                assert(out@ =~= padded + b@.take(j + 1));
                j += 1;
            }
            assert(b@.take(j as int) =~= b@);
            Some(out)
        },
        _ => None,
    }
}

impl Ip {
    /// Reads an address from its text.
    pub fn parse(text: &str) -> (read: Option<Ip>)
        ensures
            read == ip_of_text(text@),
    {
        let chars = chars_of(text);
        match parse_dotted(&chars) {
            Some(quad) => Some(Ip::V4(quad.0, quad.1, quad.2, quad.3)),
            None => match parse_grouped(&chars) {
                Some(g) => Some(Ip::V6(g[0], g[1], g[2], g[3], g[4], g[5], g[6], g[7])),
                None => None,
            },
        }
    }
}

impl DeepView for Ip {
    type V = Ip;

    open spec fn deep_view(&self) -> Ip {
        *self
    }
}

impl FromJson for Ip {
    open spec fn of_json(doc: JsonValue) -> Option<Ip> {
        match doc {
            JsonValue::Str(text) => ip_of_text(text),
            _ => None,
        }
    }

    fn from_json(doc: &Json) -> (read: Option<Ip>) {
        match doc {
            Json::Str(text) => Ip::parse(text.as_str()),
            _ => None,
        }
    }
}

} // verus!
