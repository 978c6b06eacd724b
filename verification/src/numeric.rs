use vstd::prelude::*;

verus! {

/// The 16-bit word formed by `a` as the high byte and `b` as the low byte.
pub open spec fn spec_to_u16(a: u8, b: u8) -> u16 {
    ((a as int) * 256 + (b as int)) as u16
}

pub fn to_u16(a: u8, b: u8) -> (word: u16)
    ensures
        word == spec_to_u16(a, b),
{
    (a as u16) * 256 + (b as u16)
}

/// A sample's distance in millimeters: the third sample byte contributes
/// its value shifted up by six bits, the second byte its upper six bits.
pub open spec fn spec_calc_distance(b1: u8, b2: u8) -> u16 {
    ((b2 as int) * 64 + (b1 as int) / 4) as u16
}

pub fn calc_distance(b1: u8, b2: u8) -> (distance: u16)
    ensures
        distance == spec_calc_distance(b1, b2),
{
    (b2 as u16) * 64 + (b1 as u16) / 4
}

/// A wire angle field in units of 1/64 degree: the two bytes form a
/// little-endian word whose lowest bit is discarded.
pub open spec fn spec_angle_raw(b1: u8, b2: u8) -> u16 {
    (((b1 as int) + (b2 as int) * 256) / 2) as u16
}

pub fn angle_raw(b1: u8, b2: u8) -> (raw: u16)
    ensures
        raw == spec_angle_raw(b1, b2),
{
    ((b1 as u16) + (b2 as u16) * 256) / 2
}

/// The upper-case hexadecimal digit for a value below sixteen.
pub open spec fn spec_hex_digit(d: u8) -> char {
    if d == 0 {
        '0'
    } else if d == 1 {
        '1'
    } else if d == 2 {
        '2'
    } else if d == 3 {
        '3'
    } else if d == 4 {
        '4'
    } else if d == 5 {
        '5'
    } else if d == 6 {
        '6'
    } else if d == 7 {
        '7'
    } else if d == 8 {
        '8'
    } else if d == 9 {
        '9'
    } else if d == 10 {
        'A'
    } else if d == 11 {
        'B'
    } else if d == 12 {
        'C'
    } else if d == 13 {
        'D'
    } else if d == 14 {
        'E'
    } else {
        'F'
    }
}

/// Two upper-case hexadecimal digits for one byte.
pub open spec fn spec_hex_pair(b: u8) -> Seq<char> {
    seq![spec_hex_digit(b / 16), spec_hex_digit(b % 16)]
}

/// The bytes of `data` as upper-case two-digit hexadecimal numbers
/// separated by single spaces.
pub open spec fn spec_hex_string(data: Seq<u8>) -> Seq<char>
    decreases data.len(),
{
    if data.len() == 0 {
        Seq::empty()
    } else if data.len() == 1 {
        spec_hex_pair(data[0])
    } else {
        spec_hex_string(data.drop_last()) + seq![' '] + spec_hex_pair(data.last())
    }
}

fn hex_digit_str(d: u8) -> (s: &'static str)
    requires
        d < 16,
    ensures
        s@ == seq![spec_hex_digit(d)],
{
    let s: &'static str = match d {
        0 => "0",
        1 => "1",
        2 => "2",
        3 => "3",
        4 => "4",
        5 => "5",
        6 => "6",
        7 => "7",
        8 => "8",
        9 => "9",
        10 => "A",
        11 => "B",
        12 => "C",
        13 => "D",
        14 => "E",
        _ => "F",
    };
    proof {
        reveal_strlit("0");
        reveal_strlit("1");
        reveal_strlit("2");
        reveal_strlit("3");
        reveal_strlit("4");
        reveal_strlit("5");
        reveal_strlit("6");
        reveal_strlit("7");
        reveal_strlit("8");
        reveal_strlit("9");
        reveal_strlit("A");
        reveal_strlit("B");
        reveal_strlit("C");
        reveal_strlit("D");
        reveal_strlit("E");
        reveal_strlit("F");
        assert(s@ =~= seq![spec_hex_digit(d)]);
    }
    s
}

/// Renders bytes as space-separated hexadecimal text, as carried by the
/// invalid-magic-number error.
pub fn to_string(data: &[u8]) -> (text: String)
    ensures
        text@ == spec_hex_string(data@),
{
    let ghost all: Seq<u8> = data@;
    let mut text = String::new();
    let mut i: usize = 0;
    while i < data.len()
        invariant
            i <= all.len(),
            data@ == all,
            text@ == spec_hex_string(all.subrange(0, i as int)),
        decreases all.len() - i,
    {
        if i > 0 {
            text.append(" ");
        }
        let b = data[i];
        text.append(hex_digit_str(b / 16));
        text.append(hex_digit_str(b % 16));
        proof {
            reveal_strlit(" ");
            let prev = all.subrange(0, i as int);
            let cur = all.subrange(0, i + 1 as int);
            assert(cur.drop_last() =~= prev);
            assert(cur.last() == all[i as int]);
            assert(text@ =~= spec_hex_string(cur));
        }
        i += 1;
    }
    proof {
        assert(all.subrange(0, all.len() as int) =~= all);
    }
    text
}

} // verus!
