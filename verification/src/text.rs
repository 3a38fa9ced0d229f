use vstd::prelude::*;
use crate::coordinates::SpaceCoordinates;

verus! {

/// The character of a decimal digit.
pub open spec fn digit_char(d: int) -> char {
    if d == 0 {
        '0'
    } else if d == 1 {
        '1'
    } else if d == 2 {
        '2'
    } else if d == 3 {
        '3'
    } else if d == 4 {
        '4'
    } else if d == 5 {
        '5'
    } else if d == 6 {
        '6'
    } else if d == 7 {
        '7'
    } else if d == 8 {
        '8'
    } else {
        '9'
    }
}

/// The decimal writing of a natural number, without leading zeros.
pub open spec fn decimal(n: nat) -> Seq<char>
    decreases n,
{
    if n < 10 {
        seq![digit_char(n as int)]
    } else {
        decimal(n / 10).push(digit_char((n % 10) as int))
    }
}

/// The decimal writing of an integer, with a leading `-` when it is negative.
pub open spec fn signed_decimal(v: int) -> Seq<char> {
    if v < 0 {
        seq!['-'] + decimal((-v) as nat)
    } else {
        decimal(v as nat)
    }
}

/// How a point is written in the names of generation steps: `(x: 1, y: -2, z: 3)`.
pub open spec fn coordinates_text(c: SpaceCoordinates) -> Seq<char> {
    "(x: "@ + signed_decimal(c.x as int) + ", y: "@ + signed_decimal(c.y as int) + ", z: "@
        + signed_decimal(c.z as int) + ")"@
}

fn digit_str(d: u64) -> (r: &'static str)
    requires
        d < 10,
    ensures
        r@ == seq![digit_char(d as int)],
{
    proof {
        reveal_strlit("0");
        reveal_strlit("1");
        reveal_strlit("2");
        reveal_strlit("3");
        reveal_strlit("4");
        reveal_strlit("5");
        reveal_strlit("6");
        reveal_strlit("7");
        reveal_strlit("8");
        reveal_strlit("9");
    }
    if d == 0 {
        "0"
    } else if d == 1 {
        "1"
    } else if d == 2 {
        "2"
    } else if d == 3 {
        "3"
    } else if d == 4 {
        "4"
    } else if d == 5 {
        "5"
    } else if d == 6 {
        "6"
    } else if d == 7 {
        "7"
    } else if d == 8 {
        "8"
    } else {
        "9"
    }
}

/// Appends the decimal writing of `n` to `s`.
pub fn append_decimal(s: &mut String, n: u64)
    ensures
        final(s)@ == old(s)@ + decimal(n as nat),
    decreases n,
{
    if n >= 10 {
        append_decimal(s, n / 10);
    }
    s.append(digit_str(n % 10));
    proof {
        assert(old(s)@ + decimal(n as nat) =~= old(s)@ + (if n >= 10 {
            decimal((n / 10) as nat)
        } else {
            Seq::<char>::empty()
        }) + seq![digit_char((n % 10) as int)]);
    }
}

/// Appends the decimal writing of `v`, with a leading `-` when negative, to `s`.
pub fn append_signed_decimal(s: &mut String, v: i64)
    ensures
        final(s)@ == old(s)@ + signed_decimal(v as int),
{
    if v < 0 {
        proof {
            reveal_strlit("-");
        }
        s.append("-");
        let magnitude: u64 = ((-(v + 1)) as u64) + 1;
        append_decimal(s, magnitude);
        assert(final(s)@ =~= old(s)@ + signed_decimal(v as int)) by {
            assert(magnitude == -(v as int));
        }
    } else {
        append_decimal(s, v as u64);
    }
}

/// Appends the writing of a point, `(x: 1, y: -2, z: 3)`, to `s`.
pub fn append_coordinates(s: &mut String, c: SpaceCoordinates)
    ensures
        final(s)@ == old(s)@ + coordinates_text(c),
{
    s.append("(x: ");
    append_signed_decimal(s, c.x);
    s.append(", y: ");
    append_signed_decimal(s, c.y);
    s.append(", z: ");
    append_signed_decimal(s, c.z);
    s.append(")");
    proof {
        assert(final(s)@ =~= old(s)@ + coordinates_text(c));
    }
}

/// The name of a generation step made of a prefix, a number and a suffix, such as `gal_3_cat`.
pub fn numbered_step(prefix: &str, n: u64, suffix: &str) -> (r: String)
    ensures
        r@ == prefix@ + decimal(n as nat) + suffix@,
{
    let mut s = String::from_str(prefix);
    append_decimal(&mut s, n);
    s.append(suffix);
    s
}

} // verus!
