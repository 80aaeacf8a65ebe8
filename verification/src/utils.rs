//! Text formatting utilities: decimal rendering, human-readable byte
//! counts, durations, and usage bars.

use vstd::prelude::*;
use vstd::string::*;

verus! {

/// The decimal digit character for `d` in `[0, 9]`.
pub open spec fn dec_digit(d: int) -> char {
    if d == 0 {
        '0'
    } else if d == 1 {
        '1'
    } else if d == 2 {
        '2'
    } else if d == 3 {
        '3'
    } else if d == 4 {
        '4'
    } else if d == 5 {
        '5'
    } else if d == 6 {
        '6'
    } else if d == 7 {
        '7'
    } else if d == 8 {
        '8'
    } else {
        '9'
    }
}

/// The decimal digit string of a non-negative integer, without leading
/// zeros (except for zero itself).
pub open spec fn dec_str(n: int) -> Seq<char>
    decreases n,
{
    if n < 10 {
        seq![dec_digit(n)]
    } else {
        dec_str(n / 10).push(dec_digit(n % 10))
    }
}

/// The single-character string for a decimal digit.
pub fn digit_str(d: u64) -> (r: &'static str)
    requires
        d < 10,
    ensures
        r@ == seq![dec_digit(d as int)],
{
    proof {
        reveal_strlit("0");
        reveal_strlit("1");
        reveal_strlit("2");
        reveal_strlit("3");
        reveal_strlit("4");
        reveal_strlit("5");
        reveal_strlit("6");
        reveal_strlit("7");
        reveal_strlit("8");
        reveal_strlit("9");
    }
    let r = match d {
        0 => "0",
        1 => "1",
        2 => "2",
        3 => "3",
        4 => "4",
        5 => "5",
        6 => "6",
        7 => "7",
        8 => "8",
        _ => "9",
    };
    proof {
        assert(r@ =~= seq![dec_digit(d as int)]);
    }
    r
}

/// Renders a number in decimal.
pub fn u64_to_string(n: u64) -> (r: String)
    ensures
        r@ == dec_str(n as int),
    decreases n,
{
    if n < 10 {
        String::from_str(digit_str(n))
    } else {
        let mut s = u64_to_string(n / 10);
        s.append(digit_str(n % 10));
        proof {
            assert(dec_str((n / 10) as int).push(dec_digit((n % 10) as int)) =~= dec_str(
                (n / 10) as int,
            ) + seq![dec_digit((n % 10) as int)]);
        }
        s
    }
}

/// The size of the byte unit at level `u`: 1024 to the `u`.
pub open spec fn byte_unit_div(u: int) -> int {
    if u <= 1 {
        1024
    } else if u == 2 {
        1048576
    } else if u == 3 {
        1073741824
    } else if u == 4 {
        1099511627776
    } else {
        1125899906842624
    }
}

/// The unit suffix printed at level `u`.
pub open spec fn byte_unit_suffix(u: int) -> Seq<char> {
    if u <= 1 {
        seq![' ', 'K', 'B']
    } else if u == 2 {
        seq![' ', 'M', 'B']
    } else if u == 3 {
        seq![' ', 'G', 'B']
    } else if u == 4 {
        seq![' ', 'T', 'B']
    } else {
        seq![' ', 'P', 'B']
    }
}

/// The unit level of a byte count of at least 1024: the largest `u <= 5`
/// with `1024^u <= bytes`.
pub open spec fn byte_unit_of(bytes: int) -> int {
    if bytes < 1048576 {
        1
    } else if bytes < 1073741824 {
        2
    } else if bytes < 1099511627776 {
        3
    } else if bytes < 1125899906842624 {
        4
    } else {
        5
    }
}

/// The human-readable rendering of a byte count: plain bytes below 1 KB,
/// otherwise the scaled value with one (truncated) decimal digit and the
/// matching unit suffix.
pub open spec fn format_bytes_spec(bytes: int) -> Seq<char> {
    if bytes < 1024 {
        dec_str(bytes) + seq![' ', 'B']
    } else {
        let u = byte_unit_of(bytes);
        let v10 = bytes * 10 / byte_unit_div(u);
        dec_str(v10 / 10) + seq!['.'] + seq![dec_digit(v10 % 10)] + byte_unit_suffix(u)
    }
}

/// Formats a byte count as a human-readable string (`B`, `KB`, `MB`,
/// `GB`, `TB` or `PB`, with one truncated decimal digit).
pub fn format_bytes(bytes: u64) -> (r: String)
    ensures
        r@ == format_bytes_spec(bytes as int),
{
    proof {
        reveal_strlit(" B");
        reveal_strlit(".");
        reveal_strlit(" KB");
        reveal_strlit(" MB");
        reveal_strlit(" GB");
        reveal_strlit(" TB");
        reveal_strlit(" PB");
    }
    if bytes < 1024 {
        let mut s = u64_to_string(bytes);
        s.append(" B");
        proof {
            assert(" B"@ =~= seq![' ', 'B']);
        }
        return s;
    }
    let (div, suffix): (u64, &'static str) = if bytes < 1048576 {
        (1024, " KB")
    } else if bytes < 1073741824 {
        (1048576, " MB")
    } else if bytes < 1099511627776 {
        (1073741824, " GB")
    } else if bytes < 1125899906842624 {
        (1099511627776, " TB")
    } else {
        (1099511627776 * 1024, " PB")
    };
    proof {
        assert(div == byte_unit_div(byte_unit_of(bytes as int)));
        assert(suffix@ =~= byte_unit_suffix(byte_unit_of(bytes as int)));
    }
    proof {
        assert((bytes as int) * 10 / (div as int) <= u64::MAX) by (nonlinear_arith)
            requires
                1024 <= div,
                0 <= bytes <= u64::MAX,
        ;
    }
    let v10: u64 = (((bytes as u128) * 10) / (div as u128)) as u64;
    let mut s = u64_to_string(v10 / 10);
    s.append(".");
    s.append(digit_str(v10 % 10));
    s.append(suffix);
    proof {
        assert("."@ =~= seq!['.']);
        assert(s@ =~= format_bytes_spec(bytes as int));
    }
    s
}

/// The rendering of a duration in seconds: days, hours and minutes when
/// there is at least one day; hours, minutes and seconds when at least
/// one hour; minutes and seconds when at least one minute; plain seconds
/// otherwise.
pub open spec fn format_duration_spec(s: int) -> Seq<char> {
    let days = s / 86400;
    let hours = (s % 86400) / 3600;
    let minutes = (s % 3600) / 60;
    let secs = s % 60;
    if days > 0 {
        dec_str(days) + seq!['d', ' '] + dec_str(hours) + seq!['h', ' '] + dec_str(minutes)
            + seq!['m']
    } else if hours > 0 {
        dec_str(hours) + seq!['h', ' '] + dec_str(minutes) + seq!['m', ' '] + dec_str(secs)
            + seq!['s']
    } else if minutes > 0 {
        dec_str(minutes) + seq!['m', ' '] + dec_str(secs) + seq!['s']
    } else {
        dec_str(secs) + seq!['s']
    }
}

/// Formats a duration given in seconds as a human-readable string.
pub fn format_duration(seconds: u64) -> (r: String)
    ensures
        r@ == format_duration_spec(seconds as int),
{
    proof {
        reveal_strlit("d ");
        reveal_strlit("h ");
        reveal_strlit("m ");
        reveal_strlit("h");
        reveal_strlit("m");
        reveal_strlit("s");
    }
    let days = seconds / 86400;
    let hours = (seconds % 86400) / 3600;
    let minutes = (seconds % 3600) / 60;
    let secs = seconds % 60;
    let mut s: String;
    if days > 0 {
        s = u64_to_string(days);
        s.append("d ");
        let hs = u64_to_string(hours);
        s.append(hs.as_str());
        s.append("h ");
        let ms = u64_to_string(minutes);
        s.append(ms.as_str());
        s.append("m");
    } else if hours > 0 {
        s = u64_to_string(hours);
        s.append("h ");
        let ms = u64_to_string(minutes);
        s.append(ms.as_str());
        s.append("m ");
        let ss = u64_to_string(secs);
        s.append(ss.as_str());
        s.append("s");
    } else if minutes > 0 {
        s = u64_to_string(minutes);
        s.append("m ");
        let ss = u64_to_string(secs);
        s.append(ss.as_str());
        s.append("s");
    } else {
        s = u64_to_string(secs);
        s.append("s");
    }
    proof {
        assert("d "@ =~= seq!['d', ' ']);
        assert("h "@ =~= seq!['h', ' ']);
        assert("m "@ =~= seq!['m', ' ']);
        assert("h"@ =~= seq!['h']);
        assert("m"@ =~= seq!['m']);
        assert("s"@ =~= seq!['s']);
        assert(s@ =~= format_duration_spec(seconds as int));
    }
    s
}

/// Draws a fixed-width usage bar: `filled` full blocks followed by empty
/// blocks, where `filled` is `percentage * width / 100` capped at `width`.
pub fn create_bar(percentage: u64, width: usize) -> (r: String)
    ensures
        r@.len() == width,
        forall|i: int|
            0 <= i < r@.len() ==> r@[i] == (if i < spec_bar_filled(
                percentage as int,
                width as int,
            ) {
                '\u{2587}'
            } else {
                '\u{2591}'
            }),
{
    proof {
        assert((percentage as int) * (width as int) <= (u64::MAX as int) * (u64::MAX as int))
            by (nonlinear_arith)
            requires
                0 <= percentage <= u64::MAX,
                0 <= width <= u64::MAX,
        ;
    }
    let f: u128 = ((percentage as u128) * (width as u128)) / 100;
    let filled: usize = if f > (width as u128) {
        width
    } else {
        f as usize
    };
    let mut s = String::new();
    let mut i: usize = 0;
    while i < width
        invariant
            i <= width,
            filled == spec_bar_filled(percentage as int, width as int),
            filled <= width,
            s@.len() == i,
            forall|k: int|
                0 <= k < i ==> s@[k] == (if k < filled as int {
                    '\u{2587}'
                } else {
                    '\u{2591}'
                }),
        decreases width - i,
    {
        if i < filled {
            s.append("\u{2587}");
        } else {
            s.append("\u{2591}");
        }
        proof {
            reveal_strlit("\u{2587}");
            reveal_strlit("\u{2591}");
            assert("\u{2587}"@ =~= seq!['\u{2587}']);
            assert("\u{2591}"@ =~= seq!['\u{2591}']);
        }
        i = i + 1;
    }
    s
}

/// The number of filled blocks of a usage bar.
pub open spec fn spec_bar_filled(percentage: int, width: int) -> int {
    if percentage * width / 100 > width {
        width
    } else {
        percentage * width / 100
    }
}

/// Relies on `String::push`: appends exactly the given character.
#[verifier::external_body]
pub fn push_char(s: &mut String, c: char)
    ensures
        final(s)@ == old(s)@.push(c),
{
    s.push(c);
}

/// Relies on `String::pop`: removes and returns the last character, or
/// returns nothing and leaves the empty string unchanged.
#[verifier::external_body]
pub fn pop_char(s: &mut String) -> (r: Option<char>)
    ensures
        old(s)@.len() == 0 ==> final(s)@ == old(s)@ && r is None,
        old(s)@.len() > 0 ==> final(s)@ == old(s)@.drop_last() && r == Some(old(s)@.last()),
{
    s.pop()
}

} // verus!
