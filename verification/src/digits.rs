use vstd::prelude::*;

verus! {

/// The character for one decimal digit.
pub open spec fn spec_digit(d: nat) -> char {
    if d == 0 {
        '0'
    } else if d == 1 {
        '1'
    } else if d == 2 {
        '2'
    } else if d == 3 {
        '3'
    } else if d == 4 {
        '4'
    } else if d == 5 {
        '5'
    } else if d == 6 {
        '6'
    } else if d == 7 {
        '7'
    } else if d == 8 {
        '8'
    } else {
        '9'
    }
}

/// The decimal rendering of a natural number, most significant digit first,
/// with no leading zero except for the number zero itself.
pub open spec fn spec_decimal(n: nat) -> Seq<char>
    decreases n,
{
    if n < 10 {
        seq![spec_digit(n)]
    } else {
        spec_decimal(n / 10).push(spec_digit(n % 10))
    }
}

/// Returns the one-character string for a decimal digit.
fn digit_str(d: u8) -> (s: &'static str)
    requires
        d < 10,
    ensures
        s@ == seq![spec_digit(d as nat)],
{
    proof {
        reveal_strlit("0");
        reveal_strlit("1");
        reveal_strlit("2");
        reveal_strlit("3");
        reveal_strlit("4");
        reveal_strlit("5");
        reveal_strlit("6");
        reveal_strlit("7");
        reveal_strlit("8");
        reveal_strlit("9");
    }
    let s: &'static str = match d {
        0 => "0",
        1 => "1",
        2 => "2",
        3 => "3",
        4 => "4",
        5 => "5",
        6 => "6",
        7 => "7",
        8 => "8",
        _ => "9",
    };
    proof {
        assert(s@ =~= seq![spec_digit(d as nat)]);
    }
    s
}

/// Renders a byte in decimal, most significant digit first.
pub fn decimal_u8(n: u8) -> (s: String)
    ensures
        s@ == spec_decimal(n as nat),
{
    let mut s = String::new();
    if n >= 100 {
        s.append(digit_str(n / 100));
    }
    if n >= 10 {
        s.append(digit_str((n / 10) % 10));
    }
    s.append(digit_str(n % 10));
    proof {
        reveal_with_fuel(spec_decimal, 3);
        let m = n as nat;
        if n < 10 {
            assert(s@ =~= spec_decimal(m));
        } else if n < 100 {
            assert(m / 10 < 10);
            assert(m / 10 % 10 == m / 10);
            assert(spec_decimal(m) == seq![spec_digit(m / 10)].push(spec_digit(m % 10)));
            assert(s@ =~= spec_decimal(m));
        } else {
            assert(m / 10 / 10 == m / 100) by (nonlinear_arith);
            assert(m / 100 < 10);
            assert(m / 10 >= 10);
            assert(spec_decimal(m / 10) == seq![spec_digit(m / 100)].push(
                spec_digit(m / 10 % 10),
            ));
            assert(spec_decimal(m) == seq![spec_digit(m / 100)].push(spec_digit(m / 10 % 10)).push(
                spec_digit(m % 10),
            ));
            assert(s@ =~= spec_decimal(m));
        }
    }
    s
}

} // verus!
