//! Human-readable sizes: a byte count as `12b`, `1.5kb`, `2.0mb`, `3.1gb`.

use vstd::prelude::*;
use vstd::string::StringExecFns;

verus! {

/// The character of one decimal digit.
pub open spec fn spec_digit_char(d: nat) -> char {
    if d == 0 {
        '0'
    } else if d == 1 {
        '1'
    } else if d == 2 {
        '2'
    } else if d == 3 {
        '3'
    } else if d == 4 {
        '4'
    } else if d == 5 {
        '5'
    } else if d == 6 {
        '6'
    } else if d == 7 {
        '7'
    } else if d == 8 {
        '8'
    } else {
        '9'
    }
}

/// The decimal digits of a number, most significant first.
pub open spec fn spec_decimal(n: nat) -> Seq<char>
    decreases n,
{
    if n < 10 {
        seq![spec_digit_char(n)]
    } else {
        spec_decimal(n / 10) + seq![spec_digit_char(n % 10)]
    }
}

/// One decimal digit as text.
fn digit_str(d: u64) -> (s: &'static str)
    requires
        d < 10,
    ensures
        s@ == seq![spec_digit_char(d as nat)],
{
    if d == 0 {
        proof {
            reveal_strlit("0");
        }
        "0"
    } else if d == 1 {
        proof {
            reveal_strlit("1");
        }
        "1"
    } else if d == 2 {
        proof {
            reveal_strlit("2");
        }
        "2"
    } else if d == 3 {
        proof {
            reveal_strlit("3");
        }
        "3"
    } else if d == 4 {
        proof {
            reveal_strlit("4");
        }
        "4"
    } else if d == 5 {
        proof {
            reveal_strlit("5");
        }
        "5"
    } else if d == 6 {
        proof {
            reveal_strlit("6");
        }
        "6"
    } else if d == 7 {
        proof {
            reveal_strlit("7");
        }
        "7"
    } else if d == 8 {
        proof {
            reveal_strlit("8");
        }
        "8"
    } else {
        proof {
            reveal_strlit("9");
        }
        "9"
    }
}

/// A number in decimal.
pub fn u64_to_decimal(n: u64) -> (s: String)
    ensures
        s@ == spec_decimal(n as nat),
    decreases n,
{
    if n < 10 {
        String::from_str(digit_str(n))
    } else {
        let prefix = u64_to_decimal(n / 10);
        prefix.concat(digit_str(n % 10))
    }
}

/// What `format_size_bytes` produces: plain bytes below one thousand, then
/// kilobytes, megabytes and gigabytes with one (truncated) decimal.
pub open spec fn spec_format_size_bytes(size: nat) -> Seq<char> {
    if size < 1000 {
        spec_decimal(size) + "b"@
    } else if size < 1000000 {
        spec_decimal(size / 1000) + "."@ + spec_decimal((size % 1000) / 100) + "kb"@
    } else if size < 1000000000 {
        spec_decimal(size / 1000000) + "."@ + spec_decimal((size % 1000000) / 100000) + "mb"@
    } else {
        spec_decimal(size / 1000000000) + "."@ + spec_decimal((size % 1000000000) / 100000000)
            + "gb"@
    }
}

/// Formats a byte count for humans: `12b`, `1.5kb`, `2.0mb`, `3.1gb`, with
/// one decimal of the next-smaller unit.
pub fn format_size_bytes(size: usize) -> (s: String)
    ensures
        s@ == spec_format_size_bytes(size as nat),
{
    let n = size as u64;
    if n < 1000 {
        u64_to_decimal(n).concat("b")
    } else if n < 1000000 {
        u64_to_decimal(n / 1000).concat(".").concat(u64_to_decimal((n % 1000) / 100).as_str())
            .concat("kb")
    } else if n < 1000000000 {
        u64_to_decimal(n / 1000000).concat(".").concat(
            u64_to_decimal((n % 1000000) / 100000).as_str(),
        ).concat("mb")
    } else {
        u64_to_decimal(n / 1000000000).concat(".").concat(
            u64_to_decimal((n % 1000000000) / 100000000).as_str(),
        ).concat("gb")
    }
}

} // verus!
