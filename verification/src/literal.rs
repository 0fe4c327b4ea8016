//! Reading IP addresses in their text form.
//!
//! An IPv4 address is written as four decimal numbers from 0 to 255, joined
//! by dots; a number has at most three digits and no zero in front of another
//! digit. An IPv6 address is written as eight groups of one to four
//! hexadecimal digits, in either case, joined by colons. One run of groups
//! that are zero may be left out and is then written `::`. The last two
//! groups may be written as an IPv4 address. Nothing may stand before or
//! after the address.

use vstd::prelude::*;
use vstd::string::*;

verus! {

/// The value of `c` as a digit: a decimal digit, or a hexadecimal digit in
/// either case if `hex` is set.
pub open spec fn digit_of(c: char, hex: bool) -> Option<int> {
    let x = c as int;
    if 48 <= x <= 57 {
        Some(x - 48)
    } else if hex && 97 <= x <= 102 {
        Some(x - 87)
    } else if hex && 65 <= x <= 70 {
        Some(x - 55)
    } else {
        None
    }
}

/// The base of the numbers: sixteen if `hex` is set, ten otherwise.
pub open spec fn radix(hex: bool) -> int {
    if hex {
        16
    } else {
        10
    }
}

/// The number of digits that stand in `s` from position `i` on without a
/// break.
pub open spec fn digit_run(s: Seq<char>, i: int, hex: bool) -> nat
    decreases s.len() - i,
{
    if 0 <= i < s.len() && digit_of(s[i], hex) is Some {
        1 + digit_run(s, i + 1, hex)
    } else {
        0
    }
}

/// The number that the digits `digits` write.
pub open spec fn digits_value(digits: Seq<char>, hex: bool) -> int
    decreases digits.len(),
{
    if digits.len() == 0 {
        0
    } else {
        digits_value(digits.drop_last(), hex) * radix(hex) + digit_of(digits.last(), hex)->0
    }
}

/// The number that stands in `s` at `i`, and the position behind it: all the
/// digits that stand there without a break, which must be at least one and at
/// most `max`.
pub open spec fn number_at(s: Seq<char>, i: int, hex: bool, max: int) -> Option<(int, int)> {
    let run = digit_run(s, i, hex);
    if 1 <= run <= max {
        Some((digits_value(s.subrange(i, i + run), hex), i + run))
    } else {
        None
    }
}

/// A run of digits that ends at a character that is no digit, or at the end
/// of the text, is the whole run.
pub proof fn lemma_digit_run_is(s: Seq<char>, i: int, hex: bool, count: int)
    requires
        0 <= i,
        0 <= count,
        i + count <= s.len(),
        forall|k: int| i <= k < i + count ==> digit_of(#[trigger] s[k], hex) is Some,
        i + count == s.len() || digit_of(s[i + count], hex) is None,
    ensures
        digit_run(s, i, hex) == count,
    decreases count,
{
    if count > 0 {
        lemma_digit_run_is(s, i + 1, hex, count - 1);
    }
}

/// A run of digits is at least as long as the digits seen.
proof fn lemma_digit_run_at_least(s: Seq<char>, i: int, hex: bool, count: int)
    requires
        0 <= i,
        0 <= count,
        i + count <= s.len(),
        forall|k: int| i <= k < i + count ==> digit_of(#[trigger] s[k], hex) is Some,
    ensures
        digit_run(s, i, hex) >= count,
    decreases count,
{
    if count > 0 {
        lemma_digit_run_at_least(s, i + 1, hex, count - 1);
    }
}

/// The largest number that `count` digits can write, for up to four digits.
spec fn cap(count: int) -> int {
    if count <= 0 {
        0
    } else if count == 1 {
        15
    } else if count == 2 {
        255
    } else if count == 3 {
        4095
    } else {
        65535
    }
}

/// Tells the value of `c` as a digit.
fn digit(c: char, hex: bool) -> (d: Option<u32>)
    ensures
        match d {
            Some(d) => digit_of(c, hex) == Some(d as int) && d < 16,
            None => digit_of(c, hex) is None,
        },
{
    let x = c as u32;
    if 48 <= x && x <= 57 {
        Some(x - 48)
    } else if hex && 97 <= x && x <= 102 {
        Some(x - 87)
    } else if hex && 65 <= x && x <= 70 {
        Some(x - 55)
    } else {
        None
    }
}

/// Reads the number that stands in `s` at `i`; `len` is the length of `s`.
fn read_number(s: &str, len: usize, i: usize, hex: bool, max: usize) -> (number: Option<
    (u32, usize),
>)
    requires
        len == s@.len(),
        i <= len,
        1 <= max <= 4,
    ensures
        match number {
            Some((value, end)) => number_at(s@, i as int, hex, max as int) == Some(
                (value as int, end as int),
            ) && i < end <= len && end - i <= max && value <= cap(end - i),
            None => number_at(s@, i as int, hex, max as int) is None,
        },
{
    let mut j = i;
    let mut count: usize = 0;
    let mut value: u32 = 0;
    while j < len
        invariant
            len == s@.len(),
            i <= j <= len,
            j == i + count,
            count <= max <= 4,
            value <= cap(count as int),
            value == digits_value(s@.subrange(i as int, j as int), hex),
            forall|k: int| i <= k < j ==> digit_of(#[trigger] s@[k], hex) is Some,
        ensures
            j == len || digit_of(s@[j as int], hex) is None,
        decreases len - j,
    {
        match digit(s.get_char(j), hex) {
            None => {
                break ;
            },
            Some(d) => {
                if count == max {
                    proof {
                        lemma_digit_run_at_least(s@, i as int, hex, count + 1);
                    }
                    return None;
                }
                proof {
                    let longer = s@.subrange(i as int, j + 1);
                    assert(longer.drop_last() =~= s@.subrange(i as int, j as int));
                }
                value = value * (if hex {
                    16
                } else {
                    10
                }) + d;
                j += 1;
                count += 1;
            },
        }
    }
    proof {
        lemma_digit_run_is(s@, i as int, hex, count as int);
    }
    if count == 0 {
        None
    } else {
        Some((value, j))
    }
}

/// The number from 0 to 255 that stands in `s` at `i` in decimal digits: at
/// most three, and no zero in front of another digit.
pub open spec fn octet_at(s: Seq<char>, i: int) -> Option<(int, int)> {
    match number_at(s, i, false, 3) {
        Some((value, end)) => if value <= 255 && (end - i == 1 || s[i] != '0') {
            Some((value, end))
        } else {
            None
        },
        None => None,
    }
}

/// The number from 0 to 255 that stands in `s` behind a dot at `i`.
pub open spec fn octet_after_dot(s: Seq<char>, i: int) -> Option<(int, int)> {
    if 0 <= i < s.len() && s[i] == '.' {
        octet_at(s, i + 1)
    } else {
        None
    }
}

/// The four numbers of the IPv4 address that stands in `s` at `i`, and the
/// position behind it.
pub open spec fn quad_at(s: Seq<char>, i: int) -> Option<(Seq<int>, int)> {
    match octet_at(s, i) {
        None => None,
        Some((a, after_a)) => match octet_after_dot(s, after_a) {
            None => None,
            Some((b, after_b)) => match octet_after_dot(s, after_b) {
                None => None,
                Some((c, after_c)) => match octet_after_dot(s, after_c) {
                    None => None,
                    Some((d, end)) => Some((seq![a, b, c, d], end)),
                },
            },
        },
    }
}

/// The four numbers of the IPv4 address that `s` writes, if it writes one.
pub open spec fn ipv4_octets(s: Seq<char>) -> Option<Seq<int>> {
    match quad_at(s, 0) {
        Some((octets, end)) => if end == s.len() {
            Some(octets)
        } else {
            None
        },
        None => None,
    }
}

/// Reads the number from 0 to 255 that stands in `s` at `i`.
fn read_octet(s: &str, len: usize, i: usize) -> (octet: Option<(u8, usize)>)
    requires
        len == s@.len(),
        i <= len,
    ensures
        match octet {
            Some((value, end)) => octet_at(s@, i as int) == Some((value as int, end as int)) && i
                < end <= len,
            None => octet_at(s@, i as int) is None,
        },
{
    match read_number(s, len, i, false, 3) {
        Some((value, end)) => {
            if value <= 255 && (end - i == 1 || s.get_char(i) != '0') {
                Some((value as u8, end))
            } else {
                None
            }
        },
        None => None,
    }
}

/// Reads the number from 0 to 255 that stands in `s` behind a dot at `i`.
fn read_octet_after_dot(s: &str, len: usize, i: usize) -> (octet: Option<(u8, usize)>)
    requires
        len == s@.len(),
        i <= len,
    ensures
        match octet {
            Some((value, end)) => octet_after_dot(s@, i as int) == Some(
                (value as int, end as int),
            ) && i < end <= len,
            None => octet_after_dot(s@, i as int) is None,
        },
{
    if i < len && s.get_char(i) == '.' {
        read_octet(s, len, i + 1)
    } else {
        None
    }
}

/// Reads the IPv4 address that stands in `s` at `i`.
fn read_quad(s: &str, len: usize, i: usize) -> (quad: Option<(u8, u8, u8, u8, usize)>)
    requires
        len == s@.len(),
        i <= len,
    ensures
        match quad {
            Some((a, b, c, d, end)) => quad_at(s@, i as int) == Some(
                (seq![a as int, b as int, c as int, d as int], end as int),
            ) && i < end <= len,
            None => quad_at(s@, i as int) is None,
        },
{
    let (a, after_a) = match read_octet(s, len, i) {
        Some(octet) => octet,
        None => {
            return None;
        },
    };
    let (b, after_b) = match read_octet_after_dot(s, len, after_a) {
        Some(octet) => octet,
        None => {
            return None;
        },
    };
    let (c, after_c) = match read_octet_after_dot(s, len, after_b) {
        Some(octet) => octet,
        None => {
            return None;
        },
    };
    match read_octet_after_dot(s, len, after_c) {
        Some((d, end)) => Some((a, b, c, d, end)),
        None => None,
    }
}

/// Reads `s` as an IPv4 address: its four numbers, or nothing if `s` does not
/// write an IPv4 address.
pub fn parse_ipv4(s: &str) -> (octets: Option<(u8, u8, u8, u8)>)
    ensures
        match octets {
            Some((a, b, c, d)) => ipv4_octets(s@) == Some(
                seq![a as int, b as int, c as int, d as int],
            ),
            None => ipv4_octets(s@) is None,
        },
{
    let len = s.unicode_len();
    match read_quad(s, len, 0) {
        Some((a, b, c, d, end)) => if end == len {
            Some((a, b, c, d))
        } else {
            None
        },
        None => None,
    }
}

/// Groups of an IPv6 address that stand in a text without a break: their
/// values, the position behind them, and whether they end in an IPv4 address.
pub struct Groups {
    pub values: Seq<u16>,
    pub end: int,
    pub v4: bool,
}

/// No group stands at `i`.
pub open spec fn no_groups(i: int) -> Groups {
    Groups { values: Seq::empty(), end: i, v4: false }
}

/// The two groups that the IPv4 address `octets` stands for.
pub open spec fn quad_groups(octets: Seq<int>) -> Seq<u16> {
    seq![(octets[0] * 256 + octets[1]) as u16, (octets[2] * 256 + octets[3]) as u16]
}

/// The groups that stand in `s` from `i` on, where `g` groups stand before
/// them and `limit` groups may stand in all. Every group but the first of
/// all follows a colon. Where at least two groups may still stand and an
/// IPv4 address stands, it is taken for two groups and ends the run. As many
/// groups are taken as there are.
pub open spec fn groups_at(s: Seq<char>, i: int, g: int, limit: int) -> Groups
    decreases limit - g,
{
    if g >= limit {
        no_groups(i)
    } else if g > 0 && !(0 <= i < s.len() && s[i] == ':') {
        no_groups(i)
    } else {
        let start = if g > 0 {
            i + 1
        } else {
            i
        };
        let quad = if g + 1 < limit {
            quad_at(s, start)
        } else {
            None
        };
        match quad {
            Some((octets, end)) => Groups { values: quad_groups(octets), end, v4: true },
            None => match number_at(s, start, true, 4) {
                Some((value, end)) => {
                    let rest = groups_at(s, end, g + 1, limit);
                    Groups { values: seq![value as u16] + rest.values, end: rest.end, v4: rest.v4 }
                },
                None => no_groups(i),
            },
        }
    }
}

/// `count` groups that are zero.
pub open spec fn zero_groups(count: int) -> Seq<u16> {
    Seq::new(count as nat, |i: int| 0u16)
}

/// The eight groups of the IPv6 address that `s` writes, if it writes one:
/// eight groups without a break; or fewer groups, none of them written as an
/// IPv4 address, then `::`, then so many groups that at least one is left
/// out.
pub open spec fn ipv6_groups(s: Seq<char>) -> Option<Seq<u16>> {
    let head = groups_at(s, 0, 0, 8);
    if head.values.len() == 8 {
        if head.end == s.len() {
            Some(head.values)
        } else {
            None
        }
    } else if head.v4 {
        None
    } else if !(0 <= head.end && head.end + 1 < s.len() && s[head.end] == ':' && s[head.end + 1]
        == ':') {
        None
    } else {
        let tail = groups_at(s, head.end + 2, 0, 7 - head.values.len());
        if tail.end == s.len() {
            Some(
                head.values + zero_groups(8 - head.values.len() - tail.values.len())
                    + tail.values,
            )
        } else {
            None
        }
    }
}

/// Reads the groups that stand in `s` from `i` on and appends them to `out`.
/// Answers the position behind them and whether they end in an IPv4 address.
fn read_groups(s: &str, len: usize, i: usize, g: usize, limit: usize, out: &mut Vec<u16>) -> (read:
    (usize, bool))
    requires
        len == s@.len(),
        i <= len,
        g <= limit <= 8,
    ensures
        final(out)@ == old(out)@ + groups_at(s@, i as int, g as int, limit as int).values,
        read.0 == groups_at(s@, i as int, g as int, limit as int).end,
        read.1 == groups_at(s@, i as int, g as int, limit as int).v4,
        i <= read.0 <= len,
        groups_at(s@, i as int, g as int, limit as int).values.len() <= limit - g,
    decreases limit - g,
{
    if g >= limit || (g > 0 && !(i < len && s.get_char(i) == ':')) {
        return (i, false);
    }
    let start = if g > 0 {
        i + 1
    } else {
        i
    };
    if g + 1 < limit {
        match read_quad(s, len, start) {
            Some((a, b, c, d, end)) => {
                let high: u16 = (a as u16) * 256 + (b as u16);
                let low: u16 = (c as u16) * 256 + (d as u16);
                out.push(high);
                out.push(low);
                return (end, true);
            },
            None => {},
        }
    }
    match read_number(s, len, start, true, 4) {
        Some((value, end)) => {
            out.push(value as u16);
            let read = read_groups(s, len, end, g + 1, limit, out);
            proof {
                let rest = groups_at(s@, end as int, g + 1, limit as int);
                assert(out@ =~= old(out)@ + (seq![value as u16] + rest.values));
            }
            read
        },
        None => {
            assert(out@ =~= old(out)@ + Seq::<u16>::empty());
            (i, false)
        },
    }
}

/// Reads `s` as an IPv6 address: its eight groups, or nothing if `s` does not
/// write an IPv6 address.
pub fn parse_ipv6(s: &str) -> (groups: Option<Vec<u16>>)
    ensures
        match groups {
            Some(groups) => ipv6_groups(s@) == Some(groups@) && groups.len() == 8,
            None => ipv6_groups(s@) is None,
        },
{
    let len = s.unicode_len();
    let mut groups: Vec<u16> = Vec::new();
    let (head_end, head_v4) = read_groups(s, len, 0, 0, 8, &mut groups);
    let ghost head = groups@;
    let head_count = groups.len();
    if head_count == 8 {
        return if head_end == len {
            Some(groups)
        } else {
            None
        };
    }
    if head_v4 {
        return None;
    }
    if !(head_end < len && head_end + 1 < len && s.get_char(head_end) == ':' && s.get_char(
        head_end + 1,
    ) == ':') {
        return None;
    }
    let mut tail: Vec<u16> = Vec::new();
    let (tail_end, _) = read_groups(s, len, head_end + 2, 0, 7 - head_count, &mut tail);
    if tail_end != len {
        return None;
    }
    let missing = 8 - head_count - tail.len();
    let mut k: usize = 0;
    while k < missing
        invariant
            k <= missing,
            groups@ == head + zero_groups(k as int),
        decreases missing - k,
    {
        groups.push(0);
        k += 1;
    }
    let mut k: usize = 0;
    while k < tail.len()
        invariant
            k <= tail.len(),
            groups@ == head + zero_groups(missing as int) + tail@.subrange(0, k as int),
        decreases tail.len() - k,
    {
        groups.push(tail[k]);
        k += 1;
    }
    Some(groups)
}

} // verus!
