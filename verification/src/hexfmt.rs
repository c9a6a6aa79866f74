use vstd::prelude::*;

verus! {

/// The lowercase hex digit character for a nibble.
pub open spec fn hex_digit(d: int) -> char {
    if d == 0 { '0' } else if d == 1 { '1' } else if d == 2 { '2' } else if d == 3 { '3' } else if d == 4 { '4' } else if d == 5 { '5' } else if d == 6 { '6' } else if d == 7 { '7' } else if d == 8 { '8' } else if d == 9 { '9' } else if d == 10 { 'a' } else if d == 11 { 'b' } else if d == 12 { 'c' } else if d == 13 { 'd' } else if d == 14 { 'e' } else if d == 15 { 'f' } else { '0' }
}

/// The one-character string of a nibble's hex digit.
pub fn hex_digit_str(d: u8) -> (r: &'static str)
    ensures
        r@.len() == 1,
        r@[0] == hex_digit((d % 16) as int),
{
    let r = match d % 16 {
        0 => "0",
        1 => "1",
        2 => "2",
        3 => "3",
        4 => "4",
        5 => "5",
        6 => "6",
        7 => "7",
        8 => "8",
        9 => "9",
        10 => "a",
        11 => "b",
        12 => "c",
        13 => "d",
        14 => "e",
        _ => "f",
    };
    proof {
        reveal_strlit("0");
        reveal_strlit("1");
        reveal_strlit("2");
        reveal_strlit("3");
        reveal_strlit("4");
        reveal_strlit("5");
        reveal_strlit("6");
        reveal_strlit("7");
        reveal_strlit("8");
        reveal_strlit("9");
        reveal_strlit("a");
        reveal_strlit("b");
        reveal_strlit("c");
        reveal_strlit("d");
        reveal_strlit("e");
        reveal_strlit("f");
    }
    r
}

/// Append the two hex digits of a byte.
pub fn push_hex8(s: &mut String, v: u8)
    ensures
        final(s)@ == old(s)@ + seq![hex_digit((v / 16) as int), hex_digit((v % 16) as int)],
{
    let hi = hex_digit_str(v / 16);
    let lo = hex_digit_str(v % 16);
    s.append(hi);
    s.append(lo);
    proof {
        assert((v / 16) % 16 == v / 16);
        assert(final(s)@ =~= old(s)@ + seq![
            hex_digit((v / 16) as int),
            hex_digit((v % 16) as int),
        ]);
    }
}

/// Append the four hex digits of a word.
pub fn push_hex16(s: &mut String, v: u16)
    ensures
        final(s)@.len() == old(s)@.len() + 4,
{
    push_hex8(s, (v / 256) as u8);
    push_hex8(s, (v % 256) as u8);
}

/// Append a byte as three decimal digits.
pub fn push_dec3(s: &mut String, v: u8)
    ensures
        final(s)@.len() == old(s)@.len() + 3,
{
    let d0 = hex_digit_str(v / 100);
    let d1 = hex_digit_str((v / 10) % 10);
    let d2 = hex_digit_str(v % 10);
    s.append(d0);
    s.append(d1);
    s.append(d2);
}

} // verus!
