//! Verified rendering of unsigned numbers as decimal text, with the
//! zero-padded and space-padded fixed-width fields the disassembler prints.

use vstd::prelude::*;

verus! {

/// The decimal digit character for `d`, for `d < 10`.
pub open spec fn spec_digit(d: nat) -> char {
    if d == 0 {
        '0'
    } else if d == 1 {
        '1'
    } else if d == 2 {
        '2'
    } else if d == 3 {
        '3'
    } else if d == 4 {
        '4'
    } else if d == 5 {
        '5'
    } else if d == 6 {
        '6'
    } else if d == 7 {
        '7'
    } else if d == 8 {
        '8'
    } else {
        '9'
    }
}

/// The usual decimal rendering of `n`: most significant digit first, no sign,
/// no padding, and a single `0` for zero itself.
pub open spec fn spec_dec(n: nat) -> Seq<char>
    decreases n,
{
    if n < 10 {
        seq![spec_digit(n)]
    } else {
        spec_dec(n / 10).push(spec_digit(n % 10))
    }
}

/// `s` preceded by enough copies of `fill` to reach width `w`; `s` unchanged
/// when it is already that wide.
pub open spec fn spec_pad(fill: char, s: Seq<char>, w: nat) -> Seq<char> {
    if s.len() >= w {
        s
    } else {
        Seq::new((w - s.len()) as nat, |i: int| fill) + s
    }
}

/// The one-character string for the digit `d`.
fn digit_str(d: u8) -> (s: &'static str)
    requires
        d < 10,
    ensures
        s@ == seq![spec_digit(d as nat)],
{
    let s: &'static str = match d {
        0 => "0",
        1 => "1",
        2 => "2",
        3 => "3",
        4 => "4",
        5 => "5",
        6 => "6",
        7 => "7",
        8 => "8",
        _ => "9",
    };
    proof {
        reveal_strlit("0");
        reveal_strlit("1");
        reveal_strlit("2");
        reveal_strlit("3");
        reveal_strlit("4");
        reveal_strlit("5");
        reveal_strlit("6");
        reveal_strlit("7");
        reveal_strlit("8");
        reveal_strlit("9");
        assert(s@ =~= seq![spec_digit(d as nat)]);
    }
    s
}

/// Renders `n` in decimal, exactly as [`spec_dec`] describes.
pub fn dec_string(n: usize) -> (s: String)
    ensures
        s@ == spec_dec(n as nat),
    decreases n,
{
    if n < 10 {
        let mut s = String::new();
        s.append(digit_str(n as u8));
        proof {
            assert(s@ =~= spec_dec(n as nat));
        }
        s
    } else {
        let mut s = dec_string(n / 10);
        s.append(digit_str((n % 10) as u8));
        proof {
            assert(s@ =~= spec_dec(n as nat));
        }
        s
    }
}

/// The one-character string for a padding character.
fn fill_str(fill: char) -> (s: &'static str)
    requires
        fill == '0' || fill == ' ',
    ensures
        s@ == seq![fill],
{
    let s: &'static str = if fill == '0' {
        "0"
    } else {
        " "
    };
    proof {
        reveal_strlit("0");
        reveal_strlit(" ");
        assert(s@ =~= seq![fill]);
    }
    s
}

/// Renders `n` in decimal, padded on the left with `fill` to at least
/// `width` characters, exactly as [`spec_pad`] over [`spec_dec`] describes.
pub fn padded_dec(n: usize, width: usize, fill: char) -> (s: String)
    requires
        fill == '0' || fill == ' ',
    ensures
        s@ == spec_pad(fill, spec_dec(n as nat), width as nat),
{
    let digits = dec_string(n);
    let len = digits.as_str().unicode_len();
    let pad: usize = if len >= width {
        0
    } else {
        width - len
    };
    let mut s = String::new();
    let mut i: usize = 0;
    while i < pad
        invariant
            i <= pad,
            fill == '0' || fill == ' ',
            s@ == Seq::new(i as nat, |j: int| fill),
        decreases pad - i,
    {
        s.append(fill_str(fill));
        proof {
            assert(s@ =~= Seq::new((i + 1) as nat, |j: int| fill));
        }
        i = i + 1;
    }
    s.append(digits.as_str());
    proof {
        assert(s@ =~= spec_pad(fill, spec_dec(n as nat), width as nat));
    }
    s
}

} // verus!
