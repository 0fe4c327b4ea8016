//! The dotted form of IPv4 addresses: the texts that are read as an IPv4
//! address are exactly the four numbers of an address in decimal, without
//! leading zeros, joined by dots.

use vstd::prelude::*;

use crate::literal::{
    digit_of, digit_run, digits_value, ipv4_octets, lemma_digit_run_is, octet_after_dot, octet_at,
};
use crate::text::{decimal, digit_char};

verus! {

/// A number that fits in one byte.
pub open spec fn is_octet(n: int) -> bool {
    0 <= n <= 255
}

/// The address `a.b.c.d` in dotted form.
pub open spec fn dotted(a: int, b: int, c: int, d: int) -> Seq<char> {
    decimal(a as nat) + seq!['.'] + decimal(b as nat) + seq!['.'] + decimal(c as nat) + seq!['.']
        + decimal(d as nat)
}

/// The number that one, two or three digits write.
proof fn lemma_digits_value(digits: Seq<char>)
    requires
        1 <= digits.len() <= 3,
        forall|k: int| 0 <= k < digits.len() ==> digit_of(#[trigger] digits[k], false) is Some,
    ensures
        digits.len() == 1 ==> digits_value(digits, false) == digit_of(digits[0], false)->0,
        digits.len() == 2 ==> digits_value(digits, false) == digit_of(digits[0], false)->0 * 10
            + digit_of(digits[1], false)->0,
        digits.len() == 3 ==> digits_value(digits, false) == (digit_of(digits[0], false)->0 * 10
            + digit_of(digits[1], false)->0) * 10 + digit_of(digits[2], false)->0,
    decreases digits.len(),
{
    let front = digits.drop_last();
    if digits.len() == 1 {
        assert(digits_value(front, false) == 0);
    } else {
        lemma_digits_value(front);
    }
}

/// The decimal numeral of a number that fits in one byte has one to three
/// digits, no zero in front of another digit, and writes the number.
proof fn lemma_decimal_of_octet(n: int)
    requires
        is_octet(n),
    ensures
        1 <= decimal(n as nat).len() <= 3,
        forall|k: int|
            0 <= k < decimal(n as nat).len() ==> digit_of(
                #[trigger] decimal(n as nat)[k],
                false,
            ) is Some,
        decimal(n as nat).len() > 1 ==> decimal(n as nat)[0] != '0',
        digits_value(decimal(n as nat), false) == n,
{
    if 10 <= n < 100 {
        assert(decimal((n / 10) as nat) =~= seq![digit_char(n / 10)]);
    } else if 100 <= n {
        let tens = n / 10;
        assert(decimal((tens / 10) as nat) =~= seq![digit_char(tens / 10)]);
        assert(decimal(tens as nat) =~= seq![digit_char(tens / 10), digit_char(tens % 10)]);
    }
    lemma_digits_value(decimal(n as nat));
}

/// A run of digits consists of digits and ends within the text.
proof fn lemma_digit_run_digits(s: Seq<char>, i: int, hex: bool)
    requires
        0 <= i,
    ensures
        digit_run(s, i, hex) > 0 ==> i + digit_run(s, i, hex) <= s.len(),
        forall|k: int|
            i <= k < i + digit_run(s, i, hex) ==> digit_of(#[trigger] s[k], hex) is Some,
        i + digit_run(s, i, hex) < s.len() ==> digit_of(s[i + digit_run(s, i, hex)], hex)
            is None,
    decreases s.len() - i,
{
    if i < s.len() && digit_of(s[i], hex) is Some {
        lemma_digit_run_digits(s, i + 1, hex);
    }
}

/// Where the decimal numeral of a number that fits in one byte stands in a
/// text, followed by no digit, that number is read there.
proof fn lemma_octet_is_read(s: Seq<char>, i: int, n: int)
    requires
        is_octet(n),
        0 <= i,
        i + decimal(n as nat).len() <= s.len(),
        s.subrange(i, i + decimal(n as nat).len()) == decimal(n as nat),
        i + decimal(n as nat).len() == s.len() || digit_of(
            s[i + decimal(n as nat).len()],
            false,
        ) is None,
    ensures
        octet_at(s, i) == Some((n, i + decimal(n as nat).len())),
{
    let text = decimal(n as nat);
    let len = text.len() as int;
    lemma_decimal_of_octet(n);
    assert forall|k: int| i <= k < i + len implies digit_of(#[trigger] s[k], false) is Some by {
        assert(s[k] == s.subrange(i, i + len)[k - i]);
    }
    lemma_digit_run_is(s, i, false, len);
}

/// Where a number from 0 to 255 is read in a text, its decimal numeral
/// stands there.
proof fn lemma_octet_read_is_decimal(s: Seq<char>, i: int)
    requires
        0 <= i,
        octet_at(s, i) is Some,
    ensures
        ({
            let (value, end) = octet_at(s, i)->0;
            &&& is_octet(value)
            &&& i < end <= s.len()
            &&& s.subrange(i, end) == decimal(value as nat)
        }),
{
    let (value, end) = octet_at(s, i)->0;
    let digits = s.subrange(i, end);
    lemma_digit_run_digits(s, i, false);
    lemma_digits_value(digits);
    let first = digit_of(digits[0], false)->0;
    if digits.len() == 2 {
        assert(decimal((value / 10) as nat) =~= seq![digit_char(first)]);
    } else if digits.len() == 3 {
        assert(decimal((value / 100) as nat) =~= seq![digit_char(first)]);
    }
}

/// The dotted form of an address is read as that address.
pub proof fn law_dotted_is_read(a: int, b: int, c: int, d: int)
    requires
        is_octet(a),
        is_octet(b),
        is_octet(c),
        is_octet(d),
    ensures
        ipv4_octets(dotted(a, b, c, d)) == Some(seq![a, b, c, d]),
{
    let text = dotted(a, b, c, d);
    let at_b = decimal(a as nat).len() + 1;
    let at_c = at_b + decimal(b as nat).len() + 1;
    let at_d = at_c + decimal(c as nat).len() + 1;
    lemma_decimal_of_octet(a);
    lemma_decimal_of_octet(b);
    lemma_decimal_of_octet(c);
    lemma_decimal_of_octet(d);
    assert(text.subrange(0, at_b - 1) =~= decimal(a as nat));
    assert(text.subrange(at_b as int, at_c - 1) =~= decimal(b as nat));
    assert(text.subrange(at_c as int, at_d - 1) =~= decimal(c as nat));
    assert(text.subrange(at_d as int, text.len() as int) =~= decimal(d as nat));
    lemma_octet_is_read(text, 0, a);
    lemma_octet_is_read(text, at_b as int, b);
    lemma_octet_is_read(text, at_c as int, c);
    lemma_octet_is_read(text, at_d as int, d);
}

/// A text that is read as an IPv4 address is the dotted form of that
/// address, and the four numbers fit in one byte each.
pub proof fn law_read_is_dotted(s: Seq<char>)
    requires
        ipv4_octets(s) is Some,
    ensures
        ({
            let octets = ipv4_octets(s)->0;
            &&& octets.len() == 4
            &&& forall|k: int| 0 <= k < 4 ==> is_octet(#[trigger] octets[k])
            &&& s == dotted(octets[0], octets[1], octets[2], octets[3])
        }),
{
    let (a, after_a) = octet_at(s, 0)->0;
    lemma_octet_read_is_decimal(s, 0);
    let (b, after_b) = octet_after_dot(s, after_a)->0;
    lemma_octet_read_is_decimal(s, after_a + 1);
    let (c, after_c) = octet_after_dot(s, after_b)->0;
    lemma_octet_read_is_decimal(s, after_b + 1);
    let (d, end) = octet_after_dot(s, after_c)->0;
    lemma_octet_read_is_decimal(s, after_c + 1);
}

} // verus!
