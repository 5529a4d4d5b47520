//! Number formatting for the debugging views: hexadecimal with a `0x`
//! prefix, and binary right-aligned in sixteen columns.

use vstd::prelude::*;

verus! {

/// The ASCII code of hexadecimal digit `d` (upper case).
pub open spec fn hex_digit(d: int) -> u8 {
    if d < 10 {
        (48 + d) as u8
    } else {
        (55 + d) as u8
    }
}

/// The hexadecimal digits of `v`, most significant first, without leading
/// zeros ("0" for zero).
pub open spec fn hex_digits(v: nat) -> Seq<u8>
    decreases v,
{
    if v < 16 {
        seq![hex_digit(v as int)]
    } else {
        hex_digits(v / 16).push(hex_digit((v % 16) as int))
    }
}

/// The binary digits of `v`, most significant first, without leading zeros
/// ("0" for zero).
pub open spec fn binary_digits(v: nat) -> Seq<u8>
    decreases v,
{
    if v < 2 {
        seq![(48 + v) as u8]
    } else {
        binary_digits(v / 2).push((48 + v % 2) as u8)
    }
}

/// `n` copies of `b`.
pub open spec fn repeat(b: u8, n: int) -> Seq<u8> {
    Seq::new(if n > 0 { n as nat } else { 0 }, |i: int| b)
}

/// `digits` padded on the left with `pad` to at least `width` characters.
pub open spec fn padded(digits: Seq<u8>, pad: u8, width: int) -> Seq<u8> {
    repeat(pad, width - digits.len()) + digits
}

/// The characters of an ASCII string.
pub open spec fn ascii_chars(bytes: Seq<u8>) -> Seq<char> {
    bytes.map_values(|b: u8| b as char)
}

/// The value of an ASCII hexadecimal digit ('0' to '9', 'A' to 'F'), or
/// -1 for any other byte.
pub open spec fn hex_digit_value(c: u8) -> int {
    if 48 <= c <= 57 {
        c - 48
    } else if 65 <= c <= 70 {
        c - 55
    } else {
        -1
    }
}

/// The number that a string of hexadecimal digits writes, most
/// significant first.
pub open spec fn hex_value(digits: Seq<u8>) -> int
    decreases digits.len(),
{
    if digits.len() == 0 {
        0
    } else {
        hex_value(digits.drop_last()) * 16 + hex_digit_value(digits.last())
    }
}

/// The number that a string of '0' and '1' writes, most significant first.
pub open spec fn binary_value(digits: Seq<u8>) -> int
    decreases digits.len(),
{
    if digits.len() == 0 {
        0
    } else {
        binary_value(digits.drop_last()) * 2 + (digits.last() - 48)
    }
}

/// The hexadecimal digits of `v` are upper-case hexadecimal digits that
/// read back as `v`, with no leading zero.
pub proof fn lemma_hex_digits_read_back(v: nat)
    ensures
        hex_value(hex_digits(v)) == v,
        forall|i: int|
            0 <= i < hex_digits(v).len() ==> 0 <= #[trigger] hex_digit_value(hex_digits(v)[i]) < 16,
        v > 0 ==> hex_digits(v)[0] != 48,
    decreases v,
{
    if v < 16 {
        assert(hex_digits(v).drop_last() =~= Seq::<u8>::empty());
        assert(hex_value(hex_digits(v)) == hex_value(Seq::<u8>::empty()) * 16 + hex_digit_value(
            hex_digit(v as int),
        ));
    }
    if v >= 16 {
        lemma_hex_digits_read_back(v / 16);
        assert(hex_digits(v).drop_last() =~= hex_digits(v / 16));
        assert(hex_digit_value(hex_digit((v % 16) as int)) == v % 16);
        assert(hex_value(hex_digits(v)) == hex_value(hex_digits(v / 16)) * 16 + v % 16);
        assert forall|i: int| 0 <= i < hex_digits(v).len() implies 0 <= #[trigger] hex_digit_value(
            hex_digits(v)[i],
        ) < 16 by {
            if i < hex_digits(v).len() - 1 {
                assert(hex_digits(v)[i] == hex_digits(v / 16)[i]);
            }
        }
    }
}

/// The binary digits of `v` are '0' and '1' and read back as `v`, with no
/// leading zero.
pub proof fn lemma_binary_digits_read_back(v: nat)
    ensures
        binary_value(binary_digits(v)) == v,
        forall|i: int|
            0 <= i < binary_digits(v).len() ==> #[trigger] binary_digits(v)[i] == 48
                || binary_digits(v)[i] == 49,
        v > 0 ==> binary_digits(v)[0] == 49,
    decreases v,
{
    if v < 2 {
        assert(binary_digits(v).drop_last() =~= Seq::<u8>::empty());
        assert(binary_value(binary_digits(v)) == binary_value(Seq::<u8>::empty()) * 2 + v);
    }
    if v >= 2 {
        lemma_binary_digits_read_back(v / 2);
        assert(binary_digits(v).drop_last() =~= binary_digits(v / 2));
        assert(binary_value(binary_digits(v)) == binary_value(binary_digits(v / 2)) * 2 + v % 2);
        assert forall|i: int| 0 <= i < binary_digits(v).len() implies #[trigger] binary_digits(
            v,
        )[i] == 48 || binary_digits(v)[i] == 49 by {
            if i < binary_digits(v).len() - 1 {
                assert(binary_digits(v)[i] == binary_digits(v / 2)[i]);
            }
        }
    }
}

/// `base` to the power `k`.
pub open spec fn power(base: nat, k: nat) -> nat
    decreases k,
{
    if k == 0 {
        1
    } else {
        base * power(base, (k - 1) as nat)
    }
}

proof fn lemma_hex_digits_len(v: nat, k: nat)
    requires
        k >= 1,
        v < power(16, k),
    ensures
        1 <= hex_digits(v).len() <= k,
        forall|i: int| 0 <= i < hex_digits(v).len() ==> format_char(#[trigger] hex_digits(v)[i]),
    decreases v,
{
    if v >= 16 {
        assert(k >= 2) by {
            if k == 1 {
                reveal_with_fuel(power, 2);
            }
        }
        assert(v / 16 < power(16, (k - 1) as nat)) by (nonlinear_arith)
            requires
                v < 16 * power(16, (k - 1) as nat),
        ;
        lemma_hex_digits_len(v / 16, (k - 1) as nat);
    }
}

proof fn lemma_binary_digits_len(v: nat, k: nat)
    requires
        k >= 1,
        v < power(2, k),
    ensures
        1 <= binary_digits(v).len() <= k,
        forall|i: int| 0 <= i < binary_digits(v).len() ==> format_char(#[trigger] binary_digits(v)[i]),
    decreases v,
{
    if v >= 2 {
        assert(k >= 2) by {
            if k == 1 {
                reveal_with_fuel(power, 2);
            }
        }
        assert(v / 2 < power(2, (k - 1) as nat)) by (nonlinear_arith)
            requires
                v < 2 * power(2, (k - 1) as nat),
        ;
        lemma_binary_digits_len(v / 2, (k - 1) as nat);
    }
}

/// The hexadecimal digits of `value`.
fn push_hex_digits(out: &mut Vec<u8>, value: u16)
    ensures
        final(out)@ == old(out)@ + hex_digits(value as nat),
    decreases value,
{
    if value >= 16 {
        push_hex_digits(out, value / 16);
    }
    let d = (value % 16) as u8;
    let c = if d < 10 {
        48 + d
    } else {
        55 + d
    };
    out.push(c);
    proof {
        if value >= 16 {
            assert(hex_digits(value as nat) == hex_digits((value / 16) as nat).push(
                hex_digit((value % 16) as int),
            ));
        }
    }
}

/// The binary digits of `value`.
fn push_binary_digits(out: &mut Vec<u8>, value: u16)
    ensures
        final(out)@ == old(out)@ + binary_digits(value as nat),
    decreases value,
{
    if value >= 2 {
        push_binary_digits(out, value / 2);
    }
    out.push(48 + (value % 2) as u8);
}

/// Whether `b` is a character that the number formats use: a digit, an
/// upper case hexadecimal letter, `x` or a space.
pub open spec fn format_char(b: u8) -> bool {
    (48 <= b <= 57) || (65 <= b <= 70) || b == 120 || b == 32
}

/// The one-character text of format character `b`.
fn char_text(b: u8) -> (r: &'static str)
    requires
        format_char(b),
    ensures
        r@ == seq![b as char],
{
    proof {
        reveal_strlit("0");
        reveal_strlit("1");
        reveal_strlit("2");
        reveal_strlit("3");
        reveal_strlit("4");
        reveal_strlit("5");
        reveal_strlit("6");
        reveal_strlit("7");
        reveal_strlit("8");
        reveal_strlit("9");
        reveal_strlit("A");
        reveal_strlit("B");
        reveal_strlit("C");
        reveal_strlit("D");
        reveal_strlit("E");
        reveal_strlit("F");
        reveal_strlit("x");
        reveal_strlit(" ");
    }
    match b {
        48 => "0",
        49 => "1",
        50 => "2",
        51 => "3",
        52 => "4",
        53 => "5",
        54 => "6",
        55 => "7",
        56 => "8",
        57 => "9",
        65 => "A",
        66 => "B",
        67 => "C",
        68 => "D",
        69 => "E",
        70 => "F",
        120 => "x",
        _ => " ",
    }
}

/// The string of the format characters `bytes`.
fn ascii_string(bytes: Vec<u8>) -> (r: String)
    requires
        forall|i: int| 0 <= i < bytes@.len() ==> #[trigger] format_char(bytes@[i]),
    ensures
        r@ == ascii_chars(bytes@),
{
    let mut text = String::new();
    let mut i: usize = 0;
    while i < bytes.len()
        invariant
            i <= bytes@.len(),
            forall|j: int| 0 <= j < bytes@.len() ==> #[trigger] format_char(bytes@[j]),
            text@ == ascii_chars(bytes@.take(i as int)),
        decreases bytes@.len() - i,
    {
        text.append(char_text(bytes[i]));
        proof {
            assert(ascii_chars(bytes@.take(i + 1)) =~= ascii_chars(bytes@.take(i as int)) + seq![
                bytes@[i as int] as char,
            ]);
        }
        i = i + 1;
    }
    assert(bytes@.take(bytes@.len() as int) =~= bytes@);
    text
}

/// `value` in hexadecimal with a `0x` prefix and at least two digits.
pub fn hex_string(value: u16) -> (r: String)
    ensures
        r@ == ascii_chars(seq![48u8, 120u8] + padded(hex_digits(value as nat), 48, 2)),
{
    let mut digits: Vec<u8> = Vec::new();
    push_hex_digits(&mut digits, value);
    let mut out: Vec<u8> = Vec::new();
    out.push(48);
    out.push(120);
    if digits.len() < 2 {
        out.push(48);
    }
    let mut i: usize = 0;
    proof {
        assert(power(16, 4) == 0x10000) by {
            reveal_with_fuel(power, 5);
        }
        lemma_hex_digits_len(value as nat, 4);
        assert(digits@ == hex_digits(value as nat));
    }
    let ghost prefix = out@;
    while i < digits.len()
        invariant
            i <= digits@.len(),
            digits@ == hex_digits(value as nat),
            out@ == prefix + digits@.subrange(0, i as int),
        decreases digits@.len() - i,
    {
        out.push(digits[i]);
        i = i + 1;
        assert(out@ =~= prefix + digits@.subrange(0, i as int));
    }
    proof {
        assert(digits@.subrange(0, digits@.len() as int) =~= digits@);
        assert(prefix + digits@ =~= seq![48u8, 120u8] + padded(hex_digits(value as nat), 48, 2));
        assert forall|k: int| 0 <= k < out@.len() implies format_char(#[trigger] out@[k]) by {
            if k >= prefix.len() {
                assert(out@[k] == digits@[k - prefix.len()]);
            }
        }
    }
    ascii_string(out)
}

/// `value` in hexadecimal with a `0x` prefix and no padding.
pub fn hex_string8(value: u8) -> (r: String)
    ensures
        r@ == ascii_chars(seq![48u8, 120u8] + hex_digits(value as nat)),
{
    let mut out: Vec<u8> = Vec::new();
    out.push(48);
    out.push(120);
    push_hex_digits(&mut out, value as u16);
    proof {
        assert(power(16, 4) == 0x10000) by {
            reveal_with_fuel(power, 5);
        }
        lemma_hex_digits_len(value as nat, 4);
        assert forall|k: int| 0 <= k < out@.len() implies format_char(#[trigger] out@[k]) by {
            if k >= 2 {
                assert(out@[k] == hex_digits(value as nat)[k - 2]);
            }
        }
    }
    ascii_string(out)
}

/// `value` in binary, right-aligned with spaces in sixteen columns.
pub fn binary_string(value: u16) -> (r: String)
    ensures
        r@ == ascii_chars(padded(binary_digits(value as nat), 32, 16)),
{
    let mut digits: Vec<u8> = Vec::new();
    push_binary_digits(&mut digits, value);
    proof {
        assert(power(2, 16) == 0x10000) by {
            reveal_with_fuel(power, 17);
        }
        lemma_binary_digits_len(value as nat, 16);
        assert(digits@ =~= binary_digits(value as nat));
    }
    let mut out: Vec<u8> = Vec::new();
    let pad = 16 - digits.len();
    while out.len() < pad
        invariant
            out.len() <= pad,
            out@ == repeat(32, out.len() as int),
        decreases pad - out.len(),
    {
        out.push(32);
        assert(out@ =~= repeat(32, out.len() as int));
    }
    let ghost prefix = out@;
    let mut i: usize = 0;
    while i < digits.len()
        invariant
            i <= digits@.len(),
            digits@ == binary_digits(value as nat),
            out@ == prefix + digits@.subrange(0, i as int),
        decreases digits@.len() - i,
    {
        out.push(digits[i]);
        i = i + 1;
        assert(out@ =~= prefix + digits@.subrange(0, i as int));
    }
    proof {
        assert(digits@.subrange(0, digits@.len() as int) =~= digits@);
        assert(prefix + digits@ =~= padded(binary_digits(value as nat), 32, 16));
        assert forall|k: int| 0 <= k < out@.len() implies format_char(#[trigger] out@[k]) by {
            if k >= prefix.len() {
                assert(out@[k] == digits@[k - prefix.len()]);
            }
        }
    }
    ascii_string(out)
}

} // verus!
