//! Decimal rendering of small instance indices, used to name each
//! follower vault's output directory.

use vstd::prelude::*;

verus! {

/// The decimal digit character for a value below ten.
pub open spec fn spec_digit(d: nat) -> char {
    if d == 0 {
        '0'
    } else if d == 1 {
        '1'
    } else if d == 2 {
        '2'
    } else if d == 3 {
        '3'
    } else if d == 4 {
        '4'
    } else if d == 5 {
        '5'
    } else if d == 6 {
        '6'
    } else if d == 7 {
        '7'
    } else if d == 8 {
        '8'
    } else {
        '9'
    }
}

/// The decimal rendering of a natural number, most significant digit
/// first, with no leading zeroes (zero itself is `"0"`).
pub open spec fn spec_decimal(n: nat) -> Seq<char>
    decreases n,
{
    if n < 10 {
        seq![spec_digit(n)]
    } else {
        spec_decimal(n / 10).push(spec_digit(n % 10))
    }
}

pub proof fn lemma_spec_decimal_len(n: nat)
    ensures
        spec_decimal(n).len() >= 1,
    decreases n,
{
    if n >= 10 {
        lemma_spec_decimal_len(n / 10);
    }
}

fn digit_str(d: u8) -> (s: &'static str)
    requires
        d < 10,
    ensures
        s@ == seq![spec_digit(d as nat)],
{
    let s: &'static str = match d {
        0 => "0",
        1 => "1",
        2 => "2",
        3 => "3",
        4 => "4",
        5 => "5",
        6 => "6",
        7 => "7",
        8 => "8",
        _ => "9",
    };
    proof {
        reveal_strlit("0");
        reveal_strlit("1");
        reveal_strlit("2");
        reveal_strlit("3");
        reveal_strlit("4");
        reveal_strlit("5");
        reveal_strlit("6");
        reveal_strlit("7");
        reveal_strlit("8");
        reveal_strlit("9");
        assert(s@ =~= seq![spec_digit(d as nat)]);
    }
    s
}

/// Renders a byte-sized count in decimal.
pub fn u8_to_string(n: u8) -> (s: String)
    ensures
        s@ == spec_decimal(n as nat),
{
    let mut s = String::new();
    if n >= 100 {
        s.append(digit_str(n / 100));
    }
    if n >= 10 {
        s.append(digit_str((n / 10) % 10));
    }
    s.append(digit_str(n % 10));
    proof {
        if n < 10 {
            assert(s@ =~= spec_decimal(n as nat));
        } else if n < 100 {
            assert(n / 10 < 10);
            assert((n / 10) % 10 == n / 10);
            assert(spec_decimal((n / 10) as nat) == seq![spec_digit((n / 10) as nat)]);
            assert(s@ =~= spec_decimal(n as nat));
        } else {
            assert((n / 10) / 10 == n / 100) by (nonlinear_arith);
            assert((n / 10) % 10 == n / 10 - 10 * (n / 100)) by (nonlinear_arith);
            assert(n / 100 < 10);
            assert(n / 10 >= 10);
            assert(spec_decimal((n / 10) as nat) == spec_decimal(((n / 10) / 10) as nat).push(
                spec_digit(((n / 10) % 10) as nat),
            ));
            assert(spec_decimal(((n / 10) / 10) as nat) == seq![spec_digit((n / 100) as nat)]);
            assert(s@ =~= spec_decimal(n as nat));
        }
    }
    s
}

} // verus!
