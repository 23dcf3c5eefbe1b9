use vstd::prelude::*;
use vstd::arithmetic::div_mod::lemma_div_decreases;
use vstd::string::StringExecFns;

verus! {

/// The character for one decimal digit.
pub open spec fn digit_char_spec(d: int) -> char
    recommends
        0 <= d < 10,
{
    if d == 0 {
        '0'
    } else if d == 1 {
        '1'
    } else if d == 2 {
        '2'
    } else if d == 3 {
        '3'
    } else if d == 4 {
        '4'
    } else if d == 5 {
        '5'
    } else if d == 6 {
        '6'
    } else if d == 7 {
        '7'
    } else if d == 8 {
        '8'
    } else {
        '9'
    }
}

/// The decimal numeral of a non-negative integer, most significant digit
/// first, without leading zeros (the numeral of 0 is "0").
pub open spec fn decimal_spec(n: int) -> Seq<char>
    recommends
        n >= 0,
    decreases n,
    when n >= 0
    via decimal_spec_decreases
{
    if n < 10 {
        seq![digit_char_spec(n)]
    } else {
        decimal_spec(n / 10).push(digit_char_spec(n % 10))
    }
}

#[via_fn]
proof fn decimal_spec_decreases(n: int) {
    if n >= 10 {
        lemma_div_decreases(n, 10);
    }
}

/// The string slice holding one decimal digit.
fn digit_str(d: u16) -> (s: &'static str)
    requires
        d < 10,
    ensures
        s@ == seq![digit_char_spec(d as int)],
{
    match d {
        0u16 => {
            proof {
                reveal_strlit("0");
            }
            let s = "0";
            assert(s@ =~= seq!['0']);
            s
        },
        1u16 => {
            proof {
                reveal_strlit("1");
            }
            let s = "1";
            assert(s@ =~= seq!['1']);
            s
        },
        2u16 => {
            proof {
                reveal_strlit("2");
            }
            let s = "2";
            assert(s@ =~= seq!['2']);
            s
        },
        3u16 => {
            proof {
                reveal_strlit("3");
            }
            let s = "3";
            assert(s@ =~= seq!['3']);
            s
        },
        4u16 => {
            proof {
                reveal_strlit("4");
            }
            let s = "4";
            assert(s@ =~= seq!['4']);
            s
        },
        5u16 => {
            proof {
                reveal_strlit("5");
            }
            let s = "5";
            assert(s@ =~= seq!['5']);
            s
        },
        6u16 => {
            proof {
                reveal_strlit("6");
            }
            let s = "6";
            assert(s@ =~= seq!['6']);
            s
        },
        7u16 => {
            proof {
                reveal_strlit("7");
            }
            let s = "7";
            assert(s@ =~= seq!['7']);
            s
        },
        8u16 => {
            proof {
                reveal_strlit("8");
            }
            let s = "8";
            assert(s@ =~= seq!['8']);
            s
        },
        _ => {
            proof {
                reveal_strlit("9");
            }
            let s = "9";
            assert(s@ =~= seq!['9']);
            s
        },
    }
}

/// Renders a port number (or any 16-bit value) as its decimal numeral.
pub fn u16_to_decimal(n: u16) -> (s: String)
    ensures
        s@ == decimal_spec(n as int),
    decreases n,
{
    if n < 10 {
        digit_str(n).to_owned()
    } else {
        proof {
            lemma_div_decreases(n as int, 10);
        }
        let head = u16_to_decimal(n / 10);
        let s = head.concat(digit_str(n % 10));
        proof {
            assert(s@ =~= decimal_spec(n as int / 10).push(digit_char_spec(n as int % 10)));
        }
        s
    }
}

} // verus!
