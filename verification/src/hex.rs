//! Lowercase hexadecimal rendering of identifiers, zero-padded to the
//! fixed width that device identifiers carry.

use vstd::prelude::*;
use vstd::string::{StringExecFns, StrSliceExecFns};

verus! {

/// The lowercase hex digit for a value below sixteen.
pub open spec fn hex_digit_char(d: int) -> char {
    if d == 0 {
        '0'
    } else if d == 1 {
        '1'
    } else if d == 2 {
        '2'
    } else if d == 3 {
        '3'
    } else if d == 4 {
        '4'
    } else if d == 5 {
        '5'
    } else if d == 6 {
        '6'
    } else if d == 7 {
        '7'
    } else if d == 8 {
        '8'
    } else if d == 9 {
        '9'
    } else if d == 10 {
        'a'
    } else if d == 11 {
        'b'
    } else if d == 12 {
        'c'
    } else if d == 13 {
        'd'
    } else if d == 14 {
        'e'
    } else {
        'f'
    }
}

/// The hex digits of a number, most significant first, no leading zeros
/// except for zero itself.
pub open spec fn hex_digits(n: int) -> Seq<char>
    decreases n,
{
    if n < 16 {
        seq![hex_digit_char(n)]
    } else {
        hex_digits(n / 16).push(hex_digit_char(n % 16))
    }
}

/// The hex digits padded with leading zeros up to `fill` characters;
/// numbers needing more digits keep them all.
pub open spec fn hex_padded(n: int, fill: int) -> Seq<char> {
    let d = hex_digits(n);
    if d.len() >= fill {
        d
    } else {
        Seq::new((fill - d.len()) as nat, |i: int| '0') + d
    }
}

/// One lowercase hex digit.
fn hex_digit_str(d: u32) -> (r: &'static str)
    requires
        d < 16,
    ensures
        r@ == seq![hex_digit_char(d as int)],
{
    match d {
        0 => {
            proof {
                reveal_strlit("0");
            }
            "0"
        },
        1 => {
            proof {
                reveal_strlit("1");
            }
            "1"
        },
        2 => {
            proof {
                reveal_strlit("2");
            }
            "2"
        },
        3 => {
            proof {
                reveal_strlit("3");
            }
            "3"
        },
        4 => {
            proof {
                reveal_strlit("4");
            }
            "4"
        },
        5 => {
            proof {
                reveal_strlit("5");
            }
            "5"
        },
        6 => {
            proof {
                reveal_strlit("6");
            }
            "6"
        },
        7 => {
            proof {
                reveal_strlit("7");
            }
            "7"
        },
        8 => {
            proof {
                reveal_strlit("8");
            }
            "8"
        },
        9 => {
            proof {
                reveal_strlit("9");
            }
            "9"
        },
        10 => {
            proof {
                reveal_strlit("a");
            }
            "a"
        },
        11 => {
            proof {
                reveal_strlit("b");
            }
            "b"
        },
        12 => {
            proof {
                reveal_strlit("c");
            }
            "c"
        },
        13 => {
            proof {
                reveal_strlit("d");
            }
            "d"
        },
        14 => {
            proof {
                reveal_strlit("e");
            }
            "e"
        },
        _ => {
            proof {
                reveal_strlit("f");
            }
            "f"
        },
    }
}

/// The hex digits of a number, most significant first.
fn hex_digits_exec(n: u32) -> (r: String)
    ensures
        r@ == hex_digits(n as int),
    decreases n,
{
    if n < 16 {
        hex_digit_str(n).to_owned()
    } else {
        let mut s = hex_digits_exec(n / 16);
        s.append(hex_digit_str(n % 16));
        s
    }
}

/// Renders a number as lowercase hex, zero-padded on the left to at least
/// `fill` digits.
pub fn from_hex(hex_number: u32, fill: usize) -> (r: String)
    ensures
        r@ == hex_padded(hex_number as int, fill as int),
{
    let digits = hex_digits_exec(hex_number);
    let dl = digits.as_str().unicode_len();
    let need: usize = if fill > dl {
        fill - dl
    } else {
        0
    };
    let mut pad = String::new();
    let mut i: usize = 0;
    while i < need
        invariant
            i <= need,
            pad@ == Seq::new(i as nat, |k: int| '0'),
        decreases need - i,
    {
        pad.append("0");
        proof {
            reveal_strlit("0");
            assert(pad@ =~= Seq::new((i + 1) as nat, |k: int| '0'));
        }
        i += 1;
    }
    let r = pad.concat(digits.as_str());
    proof {
        if need == 0 {
            assert(r@ =~= hex_digits(hex_number as int));
        } else {
            assert(r@ =~= Seq::new(need as nat, |k: int| '0') + hex_digits(hex_number as int));
        }
    }
    r
}

} // verus!
