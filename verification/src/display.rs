//! Rendering a beat value as its fixed-format string `@DDD.DDD`.

use vstd::prelude::*;
use crate::beat::Beat;

verus! {

/// The decimal digit `d` as a character; digits above nine do not occur.
pub open spec fn digit_char(d: int) -> char {
    if d == 0 {
        '0'
    } else if d == 1 {
        '1'
    } else if d == 2 {
        '2'
    } else if d == 3 {
        '3'
    } else if d == 4 {
        '4'
    } else if d == 5 {
        '5'
    } else if d == 6 {
        '6'
    } else if d == 7 {
        '7'
    } else if d == 8 {
        '8'
    } else {
        '9'
    }
}

/// A number under 1000 written as exactly three decimal digits,
/// zero-padded on the left.
pub open spec fn three_digits(n: int) -> Seq<char> {
    seq![digit_char(n / 100), digit_char(n / 10 % 10), digit_char(n % 10)]
}

/// The display form of a beat value: the `@` sigil, the whole-beat count
/// as three digits, a point, and the thousandths of a beat as three
/// digits.
pub open spec fn display_of(b: Beat) -> Seq<char> {
    seq!['@'] + three_digits(b.trunc as int) + seq!['.'] + three_digits(b.fract as int)
}

/// The decimal digit `d` as a one-character string slice.
fn digit_str(d: u16) -> (r: &'static str)
    requires
        d < 10,
    ensures
        r@ == seq![digit_char(d as int)],
{
    proof {
        reveal_strlit("0");
        reveal_strlit("1");
        reveal_strlit("2");
        reveal_strlit("3");
        reveal_strlit("4");
        reveal_strlit("5");
        reveal_strlit("6");
        reveal_strlit("7");
        reveal_strlit("8");
        reveal_strlit("9");
    }
    if d == 0 {
        "0"
    } else if d == 1 {
        "1"
    } else if d == 2 {
        "2"
    } else if d == 3 {
        "3"
    } else if d == 4 {
        "4"
    } else if d == 5 {
        "5"
    } else if d == 6 {
        "6"
    } else if d == 7 {
        "7"
    } else if d == 8 {
        "8"
    } else {
        "9"
    }
}

impl Beat {
    /// The beat as text: `@`, the whole beats zero-padded to three
    /// digits, then the thousandths of a beat to exactly three decimal
    /// places (`@023.120` for 23 beats and 120 thousandths).
    pub fn to_string(&self) -> (r: String)
        requires
            self.wf(),
        ensures
            r@ == display_of(*self),
    {
        let mut s = String::from_str("@");
        s.append(digit_str(self.trunc / 100));
        s.append(digit_str(self.trunc / 10 % 10));
        s.append(digit_str(self.trunc % 10));
        s.append(".");
        s.append(digit_str(self.fract / 100));
        s.append(digit_str(self.fract / 10 % 10));
        s.append(digit_str(self.fract % 10));
        proof {
            reveal_strlit("@");
            reveal_strlit(".");
            assert(s@ =~= display_of(*self));
        }
        s
    }
}

} // verus!
