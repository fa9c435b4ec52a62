use vstd::prelude::*;

verus! {

pub open spec fn digit_char(d: nat) -> char {
    if d == 0 {
        '0'
    } else if d == 1 {
        '1'
    } else if d == 2 {
        '2'
    } else if d == 3 {
        '3'
    } else if d == 4 {
        '4'
    } else if d == 5 {
        '5'
    } else if d == 6 {
        '6'
    } else if d == 7 {
        '7'
    } else if d == 8 {
        '8'
    } else {
        '9'
    }
}

/// The decimal digits of `n`, without leading zeros.
pub open spec fn decimal(n: nat) -> Seq<char>
    decreases n,
{
    if n < 10 {
        seq![digit_char(n)]
    } else {
        decimal(n / 10).push(digit_char(n % 10))
    }
}

/// `v / 100` written with exactly two decimals, as `-1.05` or `0.30`.
pub open spec fn two_decimals(v: int) -> Seq<char> {
    let a = if v < 0 { -v } else { v };
    let sign = if v < 0 { seq!['-'] } else { Seq::<char>::empty() };
    sign + decimal((a / 100) as nat) + seq!['.', digit_char(((a % 100) / 10) as nat), digit_char((a % 10) as nat)]
}

fn digit_str(d: u64) -> (r: &'static str)
    requires
        d < 10,
    ensures
        r@ == seq![digit_char(d as nat)],
{
    proof {
        reveal_strlit("0");
        reveal_strlit("1");
        reveal_strlit("2");
        reveal_strlit("3");
        reveal_strlit("4");
        reveal_strlit("5");
        reveal_strlit("6");
        reveal_strlit("7");
        reveal_strlit("8");
        reveal_strlit("9");
    }
    if d == 0 {
        "0"
    } else if d == 1 {
        "1"
    } else if d == 2 {
        "2"
    } else if d == 3 {
        "3"
    } else if d == 4 {
        "4"
    } else if d == 5 {
        "5"
    } else if d == 6 {
        "6"
    } else if d == 7 {
        "7"
    } else if d == 8 {
        "8"
    } else {
        "9"
    }
}

/// Appends the decimal digits of `n`.
pub fn push_decimal(s: &mut String, n: u64)
    ensures
        final(s)@ == old(s)@ + decimal(n as nat),
    decreases n,
{
    if n < 10 {
        s.append(digit_str(n));
    } else {
        push_decimal(s, n / 10);
        s.append(digit_str(n % 10));
        proof {
            assert(old(s)@ + decimal(n as nat) =~= old(s)@ + decimal((n / 10) as nat) + seq![
                digit_char((n % 10) as nat),
            ]);
        }
    }
}

/// Appends `v / 100` with exactly two decimals.
pub fn push_two_decimals(s: &mut String, v: i64)
    ensures
        final(s)@ == old(s)@ + two_decimals(v as int),
{
    let a: u64 = if v < 0 { (0 - (v as i128)) as u64 } else { v as u64 };
    if v < 0 {
        proof {
            reveal_strlit("-");
        }
        s.append("-");
    }
    let ghost before = s@;
    push_decimal(s, a / 100);
    proof {
        reveal_strlit(".");
    }
    s.append(".");
    s.append(digit_str((a % 100) / 10));
    s.append(digit_str(a % 10));
    proof {
        assert(s@ =~= old(s)@ + two_decimals(v as int));
    }
}

} // verus!
