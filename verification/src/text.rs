//! Rendering numbers into the texts of log lines and error messages.

use vstd::prelude::*;

verus! {

/// The character of a decimal digit.
pub open spec fn digit_char(d: u8) -> char {
    match d {
        0 => '0',
        1 => '1',
        2 => '2',
        3 => '3',
        4 => '4',
        5 => '5',
        6 => '6',
        7 => '7',
        8 => '8',
        _ => '9',
    }
}

/// The character of a hexadecimal digit, letters in upper case.
pub open spec fn hex_char_upper(d: u8) -> char {
    match d {
        10 => 'A',
        11 => 'B',
        12 => 'C',
        13 => 'D',
        14 => 'E',
        15 => 'F',
        _ => digit_char(d),
    }
}

/// The character of a hexadecimal digit, letters in lower case.
pub open spec fn hex_char_lower(d: u8) -> char {
    match d {
        10 => 'a',
        11 => 'b',
        12 => 'c',
        13 => 'd',
        14 => 'e',
        15 => 'f',
        _ => digit_char(d),
    }
}

/// Decimal notation of a number, without leading zeros.
pub open spec fn decimal(n: nat) -> Seq<char>
    decreases n,
{
    if n < 10 {
        seq![digit_char(n as u8)]
    } else {
        decimal(n / 10).push(digit_char((n % 10) as u8))
    }
}

/// Two hexadecimal digits of a byte, letters in upper case.
pub open spec fn hex2_upper(v: nat) -> Seq<char> {
    seq![hex_char_upper((v / 16 % 16) as u8), hex_char_upper((v % 16) as u8)]
}

/// Four hexadecimal digits of a 16-bit number, letters in upper case.
pub open spec fn hex4_upper(v: nat) -> Seq<char> {
    hex2_upper(v / 256) + hex2_upper(v % 256)
}

/// Four hexadecimal digits of a 16-bit number, letters in lower case.
pub open spec fn hex4_lower(v: nat) -> Seq<char> {
    seq![
        hex_char_lower((v / 4096 % 16) as u8),
        hex_char_lower((v / 256 % 16) as u8),
        hex_char_lower((v / 16 % 16) as u8),
        hex_char_lower((v % 16) as u8),
    ]
}

fn upper_digit(d: u8) -> (r: &'static str)
    requires
        d < 16,
    ensures
        r@ == seq![hex_char_upper(d)],
{
    proof {
        reveal_strlit("0");
        reveal_strlit("1");
        reveal_strlit("2");
        reveal_strlit("3");
        reveal_strlit("4");
        reveal_strlit("5");
        reveal_strlit("6");
        reveal_strlit("7");
        reveal_strlit("8");
        reveal_strlit("9");
        reveal_strlit("A");
        reveal_strlit("B");
        reveal_strlit("C");
        reveal_strlit("D");
        reveal_strlit("E");
        reveal_strlit("F");
    }
    let r = match d {
        0 => "0",
        1 => "1",
        2 => "2",
        3 => "3",
        4 => "4",
        5 => "5",
        6 => "6",
        7 => "7",
        8 => "8",
        9 => "9",
        10 => "A",
        11 => "B",
        12 => "C",
        13 => "D",
        14 => "E",
        _ => "F",
    };
    assert(r@ =~= seq![hex_char_upper(d)]);
    r
}

fn lower_digit(d: u8) -> (r: &'static str)
    requires
        d < 16,
    ensures
        r@ == seq![hex_char_lower(d)],
{
    proof {
        reveal_strlit("a");
        reveal_strlit("b");
        reveal_strlit("c");
        reveal_strlit("d");
        reveal_strlit("e");
        reveal_strlit("f");
    }
    let r = match d {
        10 => "a",
        11 => "b",
        12 => "c",
        13 => "d",
        14 => "e",
        15 => "f",
        _ => upper_digit(d),
    };
    assert(r@ =~= seq![hex_char_lower(d)]);
    r
}

/// Appends the decimal notation of `n` to `out`.
pub fn push_decimal(out: &mut String, n: usize)
    ensures
        final(out)@ == old(out)@ + decimal(n as nat),
    decreases n,
{
    if n < 10 {
        out.append(upper_digit(n as u8));
        assert(out@ =~= old(out)@ + decimal(n as nat));
    } else {
        push_decimal(out, n / 10);
        out.append(upper_digit((n % 10) as u8));
        assert(out@ =~= old(out)@ + decimal(n as nat));
    }
}

/// Appends the two upper-case hexadecimal digits of `v` to `out`.
pub fn push_hex2_upper(out: &mut String, v: u8)
    ensures
        final(out)@ == old(out)@ + hex2_upper(v as nat),
{
    out.append(upper_digit(v / 16));
    out.append(upper_digit(v % 16));
    assert(out@ =~= old(out)@ + hex2_upper(v as nat));
}

/// Appends the four upper-case hexadecimal digits of `v` to `out`.
pub fn push_hex4_upper(out: &mut String, v: u16)
    ensures
        final(out)@ == old(out)@ + hex4_upper(v as nat),
{
    push_hex2_upper(out, (v / 256) as u8);
    push_hex2_upper(out, (v % 256) as u8);
    assert(out@ =~= old(out)@ + hex4_upper(v as nat));
}

/// Appends the four lower-case hexadecimal digits of `v` to `out`.
pub fn push_hex4_lower(out: &mut String, v: u16)
    ensures
        final(out)@ == old(out)@ + hex4_lower(v as nat),
{
    out.append(lower_digit((v / 4096) as u8));
    out.append(lower_digit((v / 256 % 16) as u8));
    out.append(lower_digit((v / 16 % 16) as u8));
    out.append(lower_digit((v % 16) as u8));
    assert(out@ =~= old(out)@ + hex4_lower(v as nat));
}

} // verus!
