//! Token display metadata and the helpers that compose the derived display
//! name of a wine lot token.

use vstd::prelude::*;
use crate::models::WineLotMetadata;

verus! {

/// The immutable display metadata of a token: set once at construction.
#[derive(Debug)]
pub struct TokenMetadata {
    pub decimal: u32,
    pub name: String,
    pub symbol: String,
}

/// The decimal digit character for a value below ten.
pub open spec fn digit_char(d: int) -> char {
    if d == 0 {
        '0'
    } else if d == 1 {
        '1'
    } else if d == 2 {
        '2'
    } else if d == 3 {
        '3'
    } else if d == 4 {
        '4'
    } else if d == 5 {
        '5'
    } else if d == 6 {
        '6'
    } else if d == 7 {
        '7'
    } else if d == 8 {
        '8'
    } else {
        '9'
    }
}

/// The decimal representation of a non-negative number, most significant
/// digit first, with no leading zeros (a lone zero for zero itself).
pub open spec fn dec_str(n: int) -> Seq<char>
    recommends
        n >= 0,
    decreases n,
{
    if n < 10 {
        seq![digit_char(n)]
    } else {
        dec_str(n / 10).push(digit_char(n % 10))
    }
}

/// The derived display name of a wine lot token.
pub open spec fn composed_name(m: &WineLotMetadata) -> Seq<char> {
    "WineLot-"@ + m.winery_name@ + "-"@ + dec_str(m.vintage as int)
}

/// The derived display symbol of a wine lot token.
pub open spec fn composed_symbol(m: &WineLotMetadata) -> Seq<char> {
    "WLT-"@ + m.token_code@
}

/// Appends the decimal representation of `n` to `s`.
pub fn push_decimal(s: &mut String, n: u32)
    ensures
        final(s)@ == old(s)@ + dec_str(n as int),
    decreases n,
{
    let ghost prefix = s@;
    if n >= 10 {
        push_decimal(s, n / 10);
    }
    let d = n % 10;
    let ds: &str = if d == 0 {
        "0"
    } else if d == 1 {
        "1"
    } else if d == 2 {
        "2"
    } else if d == 3 {
        "3"
    } else if d == 4 {
        "4"
    } else if d == 5 {
        "5"
    } else if d == 6 {
        "6"
    } else if d == 7 {
        "7"
    } else if d == 8 {
        "8"
    } else {
        "9"
    };
    proof {
        reveal_strlit("0");
        reveal_strlit("1");
        reveal_strlit("2");
        reveal_strlit("3");
        reveal_strlit("4");
        reveal_strlit("5");
        reveal_strlit("6");
        reveal_strlit("7");
        reveal_strlit("8");
        reveal_strlit("9");
        assert(ds@ =~= seq![digit_char(n as int % 10)]);
    }
    s.append(ds);
    proof {
        assert(s@ =~= prefix + dec_str(n as int));
    }
}

} // verus!
