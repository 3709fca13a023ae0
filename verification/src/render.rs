use vstd::prelude::*;
use vstd::string::StringExecFns;

use crate::grouping::decimal_mark2;
use crate::grouping::grouped;
use crate::grouping::lemma_grouped_round_trip;
use crate::grouping::strip_separators;

verus! {

/// The character for one decimal digit.
pub open spec fn digit_char(d: int) -> char {
    if d == 0 {
        '0'
    } else if d == 1 {
        '1'
    } else if d == 2 {
        '2'
    } else if d == 3 {
        '3'
    } else if d == 4 {
        '4'
    } else if d == 5 {
        '5'
    } else if d == 6 {
        '6'
    } else if d == 7 {
        '7'
    } else if d == 8 {
        '8'
    } else {
        '9'
    }
}

/// The decimal digits of `n`, most significant first, with no leading zero
/// except for `n == 0` itself.
pub open spec fn dec_digits(n: nat) -> Seq<char>
    decreases n,
{
    if n < 10 {
        seq![digit_char(n as int)]
    } else {
        dec_digits(n / 10) + seq![digit_char((n % 10) as int)]
    }
}

proof fn lemma_dec_digits_no_separator(n: nat)
    ensures
        forall|i: int| 0 <= i < dec_digits(n).len() ==> dec_digits(n)[i] != '.',
    decreases n,
{
    if n < 10 {
        assert(digit_char(n as int) != '.');
    } else {
        lemma_dec_digits_no_separator(n / 10);
        assert(digit_char((n % 10) as int) != '.');
        assert(forall|i: int|
            0 <= i < dec_digits(n / 10).len() ==> dec_digits(n)[i] == dec_digits(n / 10)[i]);
    }
}

/// Law: rendering a number's digits, grouping them with thousands separators,
/// and striking the separators out again yields the digits unchanged — the
/// grouping step neither loses, reorders, nor rewrites any digit.
pub proof fn lemma_grouped_digits_round_trip(n: nat)
    ensures
        strip_separators(grouped(dec_digits(n))) == dec_digits(n),
{
    lemma_dec_digits_no_separator(n);
    lemma_grouped_round_trip(dec_digits(n));
}

fn digit_str(d: u64) -> (r: &'static str)
    requires
        d < 10,
    ensures
        r@ == seq![digit_char(d as int)],
{
    proof {
        reveal_strlit("0");
        reveal_strlit("1");
        reveal_strlit("2");
        reveal_strlit("3");
        reveal_strlit("4");
        reveal_strlit("5");
        reveal_strlit("6");
        reveal_strlit("7");
        reveal_strlit("8");
        reveal_strlit("9");
    }
    let r = if d == 0 {
        "0"
    } else if d == 1 {
        "1"
    } else if d == 2 {
        "2"
    } else if d == 3 {
        "3"
    } else if d == 4 {
        "4"
    } else if d == 5 {
        "5"
    } else if d == 6 {
        "6"
    } else if d == 7 {
        "7"
    } else if d == 8 {
        "8"
    } else {
        "9"
    };
    proof {
        assert(r@ =~= seq![digit_char(d as int)]);
    }
    r
}

/// The decimal rendering of `n`.
pub fn u64_to_decimal(n: u64) -> (r: String)
    ensures
        r@ == dec_digits(n as nat),
    decreases n,
{
    if n < 10 {
        digit_str(n).to_owned()
    } else {
        let mut r = u64_to_decimal(n / 10);
        r.append(digit_str(n % 10));
        proof {
            assert(r@ =~= dec_digits(n as nat));
        }
        r
    }
}

/// The line printed for a finished case: its label, the grouped iteration
/// count, and the grouped elapsed nanoseconds.
pub open spec fn result_line(label: Seq<char>, count: nat, nanos: nat) -> Seq<char> {
    "Benchmark "@ + label + ": "@ + grouped(dec_digits(count)) + " => time: "@ + grouped(
        dec_digits(nanos),
    ) + " nano sec."@
}

/// Build the result line for one case.
pub fn format_result_line(label: &str, count: u64, nanos: u64) -> (r: String)
    ensures
        r@ == result_line(label@, count as nat, nanos as nat),
{
    let mut r = String::from_str("Benchmark ");
    r.append(label);
    r.append(": ");
    let grouped_count = decimal_mark2(u64_to_decimal(count));
    r.append(grouped_count.as_str());
    r.append(" => time: ");
    let grouped_nanos = decimal_mark2(u64_to_decimal(nanos));
    r.append(grouped_nanos.as_str());
    r.append(" nano sec.");
    proof {
        assert(r@ =~= result_line(label@, count as nat, nanos as nat));
    }
    r
}

/// The line printed for a case's checksum.
pub open spec fn checksum_line(value: nat) -> Seq<char> {
    "  res = "@ + dec_digits(value)
}

/// Build the checksum line for one case.
pub fn format_checksum_line(value: u64) -> (r: String)
    ensures
        r@ == checksum_line(value as nat),
{
    let mut r = String::from_str("  res = ");
    r.append(u64_to_decimal(value).as_str());
    proof {
        assert(r@ =~= checksum_line(value as nat));
    }
    r
}

} // verus!
