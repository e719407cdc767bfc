//! Rendering of unsigned integers as text, in decimal and in fixed-width
//! hexadecimal.

use vstd::prelude::*;
use vstd::string::StringExecFns;

verus! {

/// The character for a digit below 16, lower case.
pub open spec fn digit_char(d: nat) -> char {
    if d == 0 {
        '0'
    } else if d == 1 {
        '1'
    } else if d == 2 {
        '2'
    } else if d == 3 {
        '3'
    } else if d == 4 {
        '4'
    } else if d == 5 {
        '5'
    } else if d == 6 {
        '6'
    } else if d == 7 {
        '7'
    } else if d == 8 {
        '8'
    } else if d == 9 {
        '9'
    } else if d == 10 {
        'a'
    } else if d == 11 {
        'b'
    } else if d == 12 {
        'c'
    } else if d == 13 {
        'd'
    } else if d == 14 {
        'e'
    } else {
        'f'
    }
}

/// The decimal digits of `v`, most significant first, without leading zeros.
pub open spec fn decimal_text(v: nat) -> Seq<char>
    decreases v,
{
    if v < 10 {
        seq![digit_char(v)]
    } else {
        decimal_text(v / 10).push(digit_char(v % 10))
    }
}

/// The last `width` hexadecimal digits of `v`, most significant first, with
/// leading zeros.
pub open spec fn hex_text(v: nat, width: nat) -> Seq<char>
    decreases width,
{
    if width == 0 {
        Seq::empty()
    } else {
        hex_text(v / 16, (width - 1) as nat).push(digit_char(v % 16))
    }
}

/// One digit as a string.
fn digit_str(d: u8) -> (s: &'static str)
    requires
        d < 16,
    ensures
        s@ == seq![digit_char(d as nat)],
{
    proof {
        reveal_strlit("0");
        reveal_strlit("1");
        reveal_strlit("2");
        reveal_strlit("3");
        reveal_strlit("4");
        reveal_strlit("5");
        reveal_strlit("6");
        reveal_strlit("7");
        reveal_strlit("8");
        reveal_strlit("9");
        reveal_strlit("a");
        reveal_strlit("b");
        reveal_strlit("c");
        reveal_strlit("d");
        reveal_strlit("e");
        reveal_strlit("f");
    }
    let s = match d {
        0 => "0",
        1 => "1",
        2 => "2",
        3 => "3",
        4 => "4",
        5 => "5",
        6 => "6",
        7 => "7",
        8 => "8",
        9 => "9",
        10 => "a",
        11 => "b",
        12 => "c",
        13 => "d",
        14 => "e",
        _ => "f",
    };
    assert(s@ =~= seq![digit_char(d as nat)]);
    s
}

/// `v` in decimal.
pub fn decimal(v: u64) -> (s: String)
    ensures
        s@ == decimal_text(v as nat),
{
    let mut rest: u64 = v / 10;
    let mut out = String::from_str(digit_str((v % 10) as u8));
    proof {
        lemma_decimal_tail(v as nat, seq![digit_char((v % 10) as nat)]);
    }
    while rest > 0
        invariant
            decimal_text(v as nat) == if rest == 0 {
                out@
            } else {
                decimal_text(rest as nat) + out@
            },
        decreases rest,
    {
        let d = digit_str((rest % 10) as u8);
        proof {
            let r = rest as nat;
            if r < 10 {
                assert(decimal_text(r) + out@ =~= d@ + out@);
            } else {
                assert(decimal_text(r) + out@ =~= decimal_text(r / 10) + (d@ + out@));
            }
        }
        out = String::from_str(d).concat(out.as_str());
        rest = rest / 10;
    }
    out
}

proof fn lemma_decimal_tail(v: nat, tail: Seq<char>)
    requires
        tail == seq![digit_char(v % 10)],
    ensures
        decimal_text(v) == if v / 10 == 0 {
            tail
        } else {
            decimal_text(v / 10) + tail
        },
{
    if v < 10 {
    } else {
        assert(decimal_text(v / 10).push(digit_char(v % 10)) =~= decimal_text(v / 10) + tail);
    }
}

/// `v` as 16 hexadecimal digits.
pub fn hex16(v: u64) -> (s: String)
    ensures
        s@ == hex_text(v as nat, 16),
        s@.len() == 16,
{
    let mut rest: u64 = v;
    let mut out = String::new();
    let mut i: usize = 0;
    while i < 16
        invariant
            i <= 16,
            out@.len() == i,
            hex_text(v as nat, 16) == hex_text(rest as nat, (16 - i) as nat) + out@,
        decreases 16 - i,
    {
        let d = digit_str((rest % 16) as u8);
        proof {
            let r = rest as nat;
            let w = (16 - i) as nat;
            assert(hex_text(r, w) + out@ =~= hex_text(r / 16, (w - 1) as nat) + (d@ + out@));
        }
        out = String::from_str(d).concat(out.as_str());
        rest = rest / 16;
        i = i + 1;
    }
    assert(hex_text(rest as nat, 0) + out@ =~= out@);
    out
}

/// Fixed-width hexadecimal text has the width asked for.
pub proof fn lemma_hex_text_len(v: nat, width: nat)
    ensures
        hex_text(v, width).len() == width,
    decreases width,
{
    if width > 0 {
        lemma_hex_text_len(v / 16, (width - 1) as nat);
    }
}

/// The hexadecimal digits of `v`, most significant first, without leading
/// zeros.
pub open spec fn hex_min_text(v: nat) -> Seq<char>
    decreases v,
{
    if v < 16 {
        seq![digit_char(v)]
    } else {
        hex_min_text(v / 16).push(digit_char(v % 16))
    }
}

/// `v` in hexadecimal, without leading zeros.
pub fn hex(v: u64) -> (s: String)
    ensures
        s@ == hex_min_text(v as nat),
{
    let mut rest: u64 = v / 16;
    let mut out = String::from_str(digit_str((v % 16) as u8));
    proof {
        if v >= 16 {
            assert(hex_min_text(v as nat) =~= hex_min_text((v / 16) as nat) + out@);
        }
    }
    while rest > 0
        invariant
            hex_min_text(v as nat) == if rest == 0 {
                out@
            } else {
                hex_min_text(rest as nat) + out@
            },
        decreases rest,
    {
        let d = digit_str((rest % 16) as u8);
        proof {
            let r = rest as nat;
            if r < 16 {
                assert(hex_min_text(r) + out@ =~= d@ + out@);
            } else {
                assert(hex_min_text(r) + out@ =~= hex_min_text(r / 16) + (d@ + out@));
            }
        }
        out = String::from_str(d).concat(out.as_str());
        rest = rest / 16;
    }
    out
}

} // verus!
