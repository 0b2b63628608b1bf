//! Integers written out in decimal.
use vstd::prelude::*;
use vstd::string::*;

verus! {

pub open spec fn digit_char(d: nat) -> char {
    if d == 0 {
        '0'
    } else if d == 1 {
        '1'
    } else if d == 2 {
        '2'
    } else if d == 3 {
        '3'
    } else if d == 4 {
        '4'
    } else if d == 5 {
        '5'
    } else if d == 6 {
        '6'
    } else if d == 7 {
        '7'
    } else if d == 8 {
        '8'
    } else {
        '9'
    }
}

/// The decimal digits of `n`, most significant first, without leading zeros.
pub open spec fn digits(n: nat) -> Seq<char>
    decreases n,
{
    if n < 10 {
        seq![digit_char(n)]
    } else {
        digits(n / 10) + seq![digit_char(n % 10)]
    }
}

/// `v` in decimal, with a leading `-` when negative.
pub open spec fn int_text(v: int) -> Seq<char> {
    if v < 0 {
        seq!['-'] + digits((-v) as nat)
    } else {
        digits(v as nat)
    }
}

fn digit_text(d: u64) -> (s: &'static str)
    requires
        d < 10,
    ensures
        s@ == seq![digit_char(d as nat)],
{
    proof {
        reveal_strlit("0");
        reveal_strlit("1");
        reveal_strlit("2");
        reveal_strlit("3");
        reveal_strlit("4");
        reveal_strlit("5");
        reveal_strlit("6");
        reveal_strlit("7");
        reveal_strlit("8");
        reveal_strlit("9");
    }
    if d == 0 {
        "0"
    } else if d == 1 {
        "1"
    } else if d == 2 {
        "2"
    } else if d == 3 {
        "3"
    } else if d == 4 {
        "4"
    } else if d == 5 {
        "5"
    } else if d == 6 {
        "6"
    } else if d == 7 {
        "7"
    } else if d == 8 {
        "8"
    } else {
        "9"
    }
}

/// Writes `v` in decimal.
pub fn decimal(v: i64) -> (r: String)
    ensures
        r@ == int_text(v as int),
{
    let negative = v < 0;
    let mut m: u64 = if negative {
        (-(v as i128)) as u64
    } else {
        v as u64
    };
    let ghost whole = m as nat;
    let mut tail = String::new();
    while m >= 10
        invariant
            digits(whole) == digits(m as nat) + tail@,
        decreases m,
    {
        let mut s = String::from_str(digit_text(m % 10));
        s.append(tail.as_str());
        proof {
            assert(digits(m as nat) == digits((m / 10) as nat) + seq![digit_char((m % 10) as nat)]);
        }
        tail = s;
        m = m / 10;
    }
    let mut r = String::from_str(digit_text(m));
    r.append(tail.as_str());
    assert(r@ == digits(whole));
    if negative {
        let mut signed = String::from_str("-");
        signed.append(r.as_str());
        proof {
            reveal_strlit("-");
        }
        signed
    } else {
        r
    }
}

} // verus!
