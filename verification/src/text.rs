//! Verified building blocks for the canonical text forms: decimal numbers,
//! fixed-width upper case hexadecimal, and the packed PNP vendor letters.

use vstd::prelude::*;

verus! {

/// The character for one base-16 digit value, upper case.
pub open spec fn spec_digit(d: int) -> char {
    if d == 0 {
        '0'
    } else if d == 1 {
        '1'
    } else if d == 2 {
        '2'
    } else if d == 3 {
        '3'
    } else if d == 4 {
        '4'
    } else if d == 5 {
        '5'
    } else if d == 6 {
        '6'
    } else if d == 7 {
        '7'
    } else if d == 8 {
        '8'
    } else if d == 9 {
        '9'
    } else if d == 10 {
        'A'
    } else if d == 11 {
        'B'
    } else if d == 12 {
        'C'
    } else if d == 13 {
        'D'
    } else if d == 14 {
        'E'
    } else {
        'F'
    }
}

/// The decimal digits of `n`, most significant first, no leading zeros
/// (a single `'0'` for zero).
pub open spec fn spec_decimal(n: nat) -> Seq<char>
    decreases n,
{
    if n < 10 {
        seq![spec_digit(n as int)]
    } else {
        spec_decimal(n / 10) + seq![spec_digit((n % 10) as int)]
    }
}

/// Two upper case hexadecimal digits of `n`, zero padded.
pub open spec fn spec_hex2(n: int) -> Seq<char> {
    seq![spec_digit(n / 0x10 % 0x10), spec_digit(n % 0x10)]
}

/// Four upper case hexadecimal digits of `n`, zero padded.
pub open spec fn spec_hex4(n: int) -> Seq<char> {
    seq![
        spec_digit(n / 0x1000 % 0x10),
        spec_digit(n / 0x100 % 0x10),
        spec_digit(n / 0x10 % 0x10),
        spec_digit(n % 0x10),
    ]
}

/// One letter of a packed PNP vendor code: a 5-bit field value offset by
/// `'@'` (0x40), so 0 is `'@'`, 1 through 26 are `'A'` through `'Z'`, and
/// 27 through 31 are `'['`, `'\'`, `']'`, `'^'`, `'_'`.
pub open spec fn spec_vendor_letter(v: int) -> char {
    if v == 0 {
        '@'
    } else if v == 1 {
        'A'
    } else if v == 2 {
        'B'
    } else if v == 3 {
        'C'
    } else if v == 4 {
        'D'
    } else if v == 5 {
        'E'
    } else if v == 6 {
        'F'
    } else if v == 7 {
        'G'
    } else if v == 8 {
        'H'
    } else if v == 9 {
        'I'
    } else if v == 10 {
        'J'
    } else if v == 11 {
        'K'
    } else if v == 12 {
        'L'
    } else if v == 13 {
        'M'
    } else if v == 14 {
        'N'
    } else if v == 15 {
        'O'
    } else if v == 16 {
        'P'
    } else if v == 17 {
        'Q'
    } else if v == 18 {
        'R'
    } else if v == 19 {
        'S'
    } else if v == 20 {
        'T'
    } else if v == 21 {
        'U'
    } else if v == 22 {
        'V'
    } else if v == 23 {
        'W'
    } else if v == 24 {
        'X'
    } else if v == 25 {
        'Y'
    } else if v == 26 {
        'Z'
    } else if v == 27 {
        '['
    } else if v == 28 {
        '\\'
    } else if v == 29 {
        ']'
    } else if v == 30 {
        '^'
    } else {
        '_'
    }
}

/// The text for one base-16 digit value, upper case.
pub fn digit_str(d: u8) -> (r: &'static str)
    requires
        d < 16,
    ensures
        r@ == seq![spec_digit(d as int)],
{
    let r: &'static str = match d {
        0 => "0",
        1 => "1",
        2 => "2",
        3 => "3",
        4 => "4",
        5 => "5",
        6 => "6",
        7 => "7",
        8 => "8",
        9 => "9",
        10 => "A",
        11 => "B",
        12 => "C",
        13 => "D",
        14 => "E",
        _ => "F",
    };
    proof {
        reveal_strlit("0");
        reveal_strlit("1");
        reveal_strlit("2");
        reveal_strlit("3");
        reveal_strlit("4");
        reveal_strlit("5");
        reveal_strlit("6");
        reveal_strlit("7");
        reveal_strlit("8");
        reveal_strlit("9");
        reveal_strlit("A");
        reveal_strlit("B");
        reveal_strlit("C");
        reveal_strlit("D");
        reveal_strlit("E");
        reveal_strlit("F");
        assert(r@ =~= seq![spec_digit(d as int)]);
    }
    r
}

/// The text for one packed PNP vendor letter value.
pub fn vendor_letter_str(v: u8) -> (r: &'static str)
    requires
        v < 32,
    ensures
        r@ == seq![spec_vendor_letter(v as int)],
{
    let r: &'static str = match v {
        0 => "@",
        1 => "A",
        2 => "B",
        3 => "C",
        4 => "D",
        5 => "E",
        6 => "F",
        7 => "G",
        8 => "H",
        9 => "I",
        10 => "J",
        11 => "K",
        12 => "L",
        13 => "M",
        14 => "N",
        15 => "O",
        16 => "P",
        17 => "Q",
        18 => "R",
        19 => "S",
        20 => "T",
        21 => "U",
        22 => "V",
        23 => "W",
        24 => "X",
        25 => "Y",
        26 => "Z",
        27 => "[",
        28 => "\\",
        29 => "]",
        30 => "^",
        _ => "_",
    };
    proof {
        reveal_strlit("@");
        reveal_strlit("A");
        reveal_strlit("B");
        reveal_strlit("C");
        reveal_strlit("D");
        reveal_strlit("E");
        reveal_strlit("F");
        reveal_strlit("G");
        reveal_strlit("H");
        reveal_strlit("I");
        reveal_strlit("J");
        reveal_strlit("K");
        reveal_strlit("L");
        reveal_strlit("M");
        reveal_strlit("N");
        reveal_strlit("O");
        reveal_strlit("P");
        reveal_strlit("Q");
        reveal_strlit("R");
        reveal_strlit("S");
        reveal_strlit("T");
        reveal_strlit("U");
        reveal_strlit("V");
        reveal_strlit("W");
        reveal_strlit("X");
        reveal_strlit("Y");
        reveal_strlit("Z");
        reveal_strlit("[");
        reveal_strlit("\\");
        reveal_strlit("]");
        reveal_strlit("^");
        reveal_strlit("_");
        assert(r@ =~= seq![spec_vendor_letter(v as int)]);
    }
    r
}

/// The decimal text of `n`, most significant digit first.
pub fn u32_decimal(n: u32) -> (s: String)
    ensures
        s@ == spec_decimal(n as nat),
    decreases n,
{
    if n < 10 {
        String::from_str(digit_str(n as u8))
    } else {
        let high: String = u32_decimal(n / 10);
        let s: String = high.concat(digit_str((n % 10) as u8));
        proof {
            assert(s@ =~= spec_decimal(n as nat));
        }
        s
    }
}

/// The two-digit upper case hexadecimal text of `n`, zero padded.
pub fn u8_hex2(n: u8) -> (s: String)
    ensures
        s@ == spec_hex2(n as int),
{
    let mut s: String = String::from_str(digit_str(n / 0x10));
    s.append(digit_str(n % 0x10));
    proof {
        assert(s@ =~= spec_hex2(n as int));
    }
    s
}

/// The four-digit upper case hexadecimal text of `n`, zero padded.
pub fn u32_hex4(n: u32) -> (s: String)
    requires
        n < 0x10000,
    ensures
        s@ == spec_hex4(n as int),
{
    let mut s: String = String::from_str(digit_str((n / 0x1000 % 0x10) as u8));
    s.append(digit_str((n / 0x100 % 0x10) as u8));
    s.append(digit_str((n / 0x10 % 0x10) as u8));
    s.append(digit_str((n % 0x10) as u8));
    proof {
        assert(s@ =~= spec_hex4(n as int));
    }
    s
}

} // verus!
