//! Wall-clock time derivation and zero-padded `HH:MM:SS` formatting.

use vstd::prelude::*;
use vstd::string::StringExecFns;

verus! {

/// Hour-of-day shown for an absolute second count (wall-clock wrap).
pub open spec fn hours_of(total: int) -> int {
    (total / 3600) % 24
}

/// Minute-of-hour shown for an absolute second count.
pub open spec fn minutes_of(total: int) -> int {
    (total / 60) % 60
}

/// Second-of-minute shown for an absolute second count.
pub open spec fn seconds_of(total: int) -> int {
    total % 60
}

/// Derives the displayed (hours, minutes, seconds) components from an
/// absolute second count, wrapping as a 24-hour wall clock.
pub fn time_components(total_seconds: u64) -> (r: (u32, u32, u32))
    ensures
        r.0 == hours_of(total_seconds as int),
        r.1 == minutes_of(total_seconds as int),
        r.2 == seconds_of(total_seconds as int),
        r.0 < 24 && r.1 < 60 && r.2 < 60,
{
    let hours = ((total_seconds / 3600) % 24) as u32;
    let minutes = ((total_seconds / 60) % 60) as u32;
    let seconds = (total_seconds % 60) as u32;
    (hours, minutes, seconds)
}

/// The character for a single decimal digit.
pub open spec fn digit_char(d: int) -> char {
    if d == 0 {
        '0'
    } else if d == 1 {
        '1'
    } else if d == 2 {
        '2'
    } else if d == 3 {
        '3'
    } else if d == 4 {
        '4'
    } else if d == 5 {
        '5'
    } else if d == 6 {
        '6'
    } else if d == 7 {
        '7'
    } else if d == 8 {
        '8'
    } else {
        '9'
    }
}

/// A value below 100 as two zero-padded decimal digit characters.
pub open spec fn two_digits(v: int) -> Seq<char> {
    seq![digit_char(v / 10), digit_char(v % 10)]
}

/// The full `HH:MM:SS` character sequence for the given components.
pub open spec fn time_string(h: int, m: int, s: int) -> Seq<char> {
    two_digits(h) + seq![':'] + two_digits(m) + seq![':'] + two_digits(s)
}

fn digit_str(d: u32) -> (r: &'static str)
    requires
        d < 10,
    ensures
        r@ == seq![digit_char(d as int)],
{
    proof {
        reveal_strlit("0");
        reveal_strlit("1");
        reveal_strlit("2");
        reveal_strlit("3");
        reveal_strlit("4");
        reveal_strlit("5");
        reveal_strlit("6");
        reveal_strlit("7");
        reveal_strlit("8");
        reveal_strlit("9");
    }
    let r = match d {
        0 => "0",
        1 => "1",
        2 => "2",
        3 => "3",
        4 => "4",
        5 => "5",
        6 => "6",
        7 => "7",
        8 => "8",
        _ => "9",
    };
    proof {
        assert(r@ =~= seq![digit_char(d as int)]);
    }
    r
}

/// Formats time components as the zero-padded string `HH:MM:SS`.
pub fn format_time(hours: u32, minutes: u32, seconds: u32) -> (r: String)
    requires
        hours < 100,
        minutes < 100,
        seconds < 100,
    ensures
        r@ == time_string(hours as int, minutes as int, seconds as int),
{
    proof {
        reveal_strlit(":");
    }
    let mut out = String::new();
    out.append(digit_str(hours / 10));
    out.append(digit_str(hours % 10));
    out.append(":");
    out.append(digit_str(minutes / 10));
    out.append(digit_str(minutes % 10));
    out.append(":");
    out.append(digit_str(seconds / 10));
    out.append(digit_str(seconds % 10));
    proof {
        assert(out@ =~= time_string(hours as int, minutes as int, seconds as int));
    }
    out
}

} // verus!
