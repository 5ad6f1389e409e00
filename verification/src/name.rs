//! Worker identification: the name the spawner hands the host worker,
//! combined from the builder's explicit name, its prefix, and a generated
//! decimal suffix where only a prefix was given.

use vstd::prelude::*;
use vstd::string::StringExecFns;

verus! {

/// The decimal digit character for one digit value.
pub open spec fn spec_digit_char(d: int) -> char {
    if d == 0 {
        '0'
    } else if d == 1 {
        '1'
    } else if d == 2 {
        '2'
    } else if d == 3 {
        '3'
    } else if d == 4 {
        '4'
    } else if d == 5 {
        '5'
    } else if d == 6 {
        '6'
    } else if d == 7 {
        '7'
    } else if d == 8 {
        '8'
    } else {
        '9'
    }
}

/// The decimal rendering of a number, most significant digit first.
pub open spec fn spec_decimal(n: nat) -> Seq<char>
    decreases n,
{
    if n < 10 {
        seq![spec_digit_char(n as int)]
    } else {
        spec_decimal(n / 10).push(spec_digit_char((n % 10) as int))
    }
}

/// The character content of an optional string.
pub open spec fn spec_opt_str(o: Option<String>) -> Option<Seq<char>> {
    match o {
        Some(s) => Some(s@),
        None => None,
    }
}

/// The identification a worker is given, from the builder's configuration
/// and the generated suffix: an explicit name is combined with the prefix
/// when both are set, used alone otherwise; a prefix alone is combined with
/// the generated decimal suffix; with neither, the worker stays unnamed.
pub open spec fn spec_worker_name(
    name: Option<Seq<char>>,
    prefix: Option<Seq<char>>,
    suffix: u64,
) -> Option<Seq<char>> {
    match (name, prefix) {
        (Some(n), Some(p)) => Some(p + seq![':'] + n),
        (Some(n), None) => Some(n),
        (None, Some(p)) => Some(p + seq![':'] + spec_decimal(suffix as nat)),
        (None, None) => None,
    }
}

/// The single-character string for one decimal digit.
fn digit_str(d: u64) -> (s: &'static str)
    requires
        d < 10,
    ensures
        s@ == seq![spec_digit_char(d as int)],
{
    proof {
        reveal_strlit("0");
        reveal_strlit("1");
        reveal_strlit("2");
        reveal_strlit("3");
        reveal_strlit("4");
        reveal_strlit("5");
        reveal_strlit("6");
        reveal_strlit("7");
        reveal_strlit("8");
        reveal_strlit("9");
    }
    match d {
        0 => "0",
        1 => "1",
        2 => "2",
        3 => "3",
        4 => "4",
        5 => "5",
        6 => "6",
        7 => "7",
        8 => "8",
        _ => "9",
    }
}

/// Renders a number in decimal, most significant digit first.
pub fn u64_decimal(n: u64) -> (s: String)
    ensures
        s@ == spec_decimal(n as nat),
    decreases n,
{
    if n < 10 {
        String::from_str(digit_str(n))
    } else {
        let mut s = u64_decimal(n / 10);
        s.append(digit_str(n % 10));
        proof {
            assert(s@ == spec_decimal((n / 10) as nat).push(
                spec_digit_char((n % 10) as int),
            )) by {
                assert(spec_decimal((n / 10) as nat).push(spec_digit_char((n % 10) as int))
                    =~= spec_decimal((n / 10) as nat) + seq![spec_digit_char((n % 10) as int)]);
            }
        }
        s
    }
}

/// Combines the builder's name and prefix with the generated suffix into the
/// worker's identification.
pub fn worker_name(name: Option<String>, prefix: Option<String>, suffix: u64) -> (r: Option<
    String,
>)
    ensures
        spec_opt_str(r) == spec_worker_name(spec_opt_str(name), spec_opt_str(prefix), suffix),
{
    proof {
        reveal_strlit(":");
    }
    match (name, prefix) {
        (Some(n), Some(p)) => {
            let mut s = p;
            s.append(":");
            s.append(n.as_str());
            Some(s)
        },
        (Some(n), None) => Some(n),
        (None, Some(p)) => {
            let mut s = p;
            s.append(":");
            let d = u64_decimal(suffix);
            s.append(d.as_str());
            Some(s)
        },
        (None, None) => None,
    }
}

} // verus!
