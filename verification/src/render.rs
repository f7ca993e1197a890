//! Decimal rendering of the integer quantities that the control surface
//! reports: byte counts as whole-mebibyte strings and durations as
//! millisecond strings.
use vstd::prelude::*;
use vstd::arithmetic::div_mod::lemma_div_decreases;
use vstd::string::StringExecFns;

verus! {

/// The character for a single decimal digit.
pub open spec fn dec_digit(d: int) -> char
    recommends
        0 <= d < 10,
{
    if d == 0 {
        '0'
    } else if d == 1 {
        '1'
    } else if d == 2 {
        '2'
    } else if d == 3 {
        '3'
    } else if d == 4 {
        '4'
    } else if d == 5 {
        '5'
    } else if d == 6 {
        '6'
    } else if d == 7 {
        '7'
    } else if d == 8 {
        '8'
    } else {
        '9'
    }
}

/// The usual base-ten rendering of a non-negative integer, most
/// significant digit first and without leading zeroes (except for zero
/// itself).
pub open spec fn dec_seq(n: int) -> Seq<char>
    recommends
        n >= 0,
    decreases n,
{
    if n < 10 {
        seq![dec_digit(n)]
    } else {
        dec_seq(n / 10).push(dec_digit(n % 10))
    }
}

/// Number of whole mebibytes in a byte count.
pub open spec fn mib_of(bytes: u64) -> u64 {
    bytes / 1024 / 1024
}

/// The `"<N>MB"` rendering a memory report uses for a byte count.
pub open spec fn mb_text(bytes: u64) -> Seq<char> {
    dec_seq(mib_of(bytes) as int) + "MB"@
}

/// The `"<N>ms"` rendering a duration report uses for a millisecond count.
pub open spec fn ms_text(millis: u64) -> Seq<char> {
    dec_seq(millis as int) + "ms"@
}

fn digit_str(d: u64) -> (s: &'static str)
    requires
        d < 10,
    ensures
        s@ == seq![dec_digit(d as int)],
{
    let s: &'static str = match d {
        0 => "0",
        1 => "1",
        2 => "2",
        3 => "3",
        4 => "4",
        5 => "5",
        6 => "6",
        7 => "7",
        8 => "8",
        _ => "9",
    };
    proof {
        reveal_strlit("0");
        reveal_strlit("1");
        reveal_strlit("2");
        reveal_strlit("3");
        reveal_strlit("4");
        reveal_strlit("5");
        reveal_strlit("6");
        reveal_strlit("7");
        reveal_strlit("8");
        reveal_strlit("9");
        assert(s@ =~= seq![dec_digit(d as int)]);
    }
    s
}

/// Renders an integer in base ten, as `format!("{}")` would.
pub fn dec_string(n: u64) -> (s: String)
    ensures
        s@ == dec_seq(n as int),
    decreases n,
{
    if n < 10 {
        digit_str(n).to_owned()
    } else {
        proof {
            lemma_div_decreases(n as int, 10);
        }
        let mut s = dec_string(n / 10);
        s.append(digit_str(n % 10));
        proof {
            assert(dec_seq((n / 10) as int) + seq![dec_digit((n % 10) as int)] =~= dec_seq(
                n as int,
            ));
        }
        s
    }
}

/// Converts a byte count into whole mebibytes, as memory reports use.
pub fn to_mebibytes(bytes: u64) -> (r: u64)
    ensures
        r == mib_of(bytes),
{
    bytes / 1024 / 1024
}

/// Renders a byte count as the `"<N>MB"` string of its whole mebibytes.
pub fn mb_string(bytes: u64) -> (s: String)
    ensures
        s@ == mb_text(bytes),
{
    let s = dec_string(to_mebibytes(bytes));
    s.concat("MB")
}

/// Renders a millisecond count as a `"<N>ms"` string.
pub fn ms_string(millis: u64) -> (s: String)
    ensures
        s@ == ms_text(millis),
{
    let s = dec_string(millis);
    s.concat("ms")
}

} // verus!
