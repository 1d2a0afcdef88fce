//! Rendering an accumulated second count as `M:SS`.
//!
//! The total is decomposed into whole minutes and leftover seconds; seconds
//! are zero-padded to two digits. There is deliberately no hour rollover:
//! totals of an hour or more render with a minute field of 60 or above,
//! which is a known, accepted limitation.

use vstd::prelude::*;
use vstd::string::StringExecFns;

verus! {

/// The decimal digit character for `d` (meaningful for `0 <= d <= 9`).
pub open spec fn digit_char(d: int) -> char {
    if d == 0 {
        '0'
    } else if d == 1 {
        '1'
    } else if d == 2 {
        '2'
    } else if d == 3 {
        '3'
    } else if d == 4 {
        '4'
    } else if d == 5 {
        '5'
    } else if d == 6 {
        '6'
    } else if d == 7 {
        '7'
    } else if d == 8 {
        '8'
    } else {
        '9'
    }
}

/// The decimal digit string of a non-negative integer, most significant
/// digit first, with no leading zeroes (and `0` itself rendered as "0").
pub open spec fn spec_decimal(n: int) -> Seq<char>
    decreases n,
{
    if n < 10 {
        seq![digit_char(n)]
    } else {
        spec_decimal(n / 10) + seq![digit_char(n % 10)]
    }
}

/// The `M:SS` rendering of a second count: minutes in decimal, a colon, and
/// the leftover seconds zero-padded to two digits.
pub open spec fn spec_elapsed(total: u64) -> Seq<char> {
    spec_decimal(total as int / 60) + seq![':'] + (if total as int % 60 < 10 {
        seq!['0']
    } else {
        Seq::empty()
    }) + spec_decimal(total as int % 60)
}

/// The one-character string for a single decimal digit.
fn digit_str(d: u64) -> (s: &'static str)
    requires
        d < 10,
    ensures
        s@ =~= seq![digit_char(d as int)],
{
    proof {
        reveal_strlit("0");
        reveal_strlit("1");
        reveal_strlit("2");
        reveal_strlit("3");
        reveal_strlit("4");
        reveal_strlit("5");
        reveal_strlit("6");
        reveal_strlit("7");
        reveal_strlit("8");
        reveal_strlit("9");
    }
    if d == 0 {
        "0"
    } else if d == 1 {
        "1"
    } else if d == 2 {
        "2"
    } else if d == 3 {
        "3"
    } else if d == 4 {
        "4"
    } else if d == 5 {
        "5"
    } else if d == 6 {
        "6"
    } else if d == 7 {
        "7"
    } else if d == 8 {
        "8"
    } else {
        "9"
    }
}

/// Renders `n` in decimal, most significant digit first.
pub fn u64_to_string(n: u64) -> (s: String)
    ensures
        s@ == spec_decimal(n as int),
    decreases n,
{
    if n < 10 {
        let s = String::from_str(digit_str(n));
        proof {
            assert(s@ =~= spec_decimal(n as int));
        }
        s
    } else {
        let mut s = u64_to_string(n / 10);
        s.append(digit_str(n % 10));
        proof {
            assert(s@ =~= spec_decimal(n as int));
        }
        s
    }
}

/// Renders an accumulated total of seconds as `M:SS` (minutes unpadded,
/// seconds zero-padded to two digits, no hour rollover).
pub fn format_elapsed(total: u64) -> (s: String)
    ensures
        s@ == spec_elapsed(total),
{
    let minutes: u64 = total / 60;
    let seconds: u64 = total % 60;
    let mut s = u64_to_string(minutes);
    s.append(":");
    proof {
        reveal_strlit(":");
        assert(":"@ =~= seq![':']);
    }
    if seconds < 10 {
        s.append("0");
        proof {
            reveal_strlit("0");
            assert("0"@ =~= seq!['0']);
        }
    }
    let tail = u64_to_string(seconds);
    s.append(tail.as_str());
    proof {
        assert(s@ =~= spec_elapsed(total));
    }
    s
}

/// The status line shown when playback pauses, e.g. `Paused at 1:01`.
pub fn paused_message(total: u64) -> (s: String)
    ensures
        s@ == "Paused at "@ + spec_elapsed(total),
{
    let mut s = String::from_str("Paused at ");
    let tail = format_elapsed(total);
    s.append(tail.as_str());
    proof {
        assert(s@ =~= "Paused at "@ + spec_elapsed(total));
    }
    s
}

/// The status line shown when playback resumes.
pub fn resumed_message() -> (s: &'static str)
    ensures
        s@ == "Resumed"@,
{
    "Resumed"
}

/// The banner naming the file being played, e.g. `Playing: song.mp3`.
pub fn playing_message(path: &str) -> (s: String)
    ensures
        s@ == "Playing: "@ + path@,
{
    let mut s = String::from_str("Playing: ");
    s.append(path);
    s
}

/// The key-binding help line shown under the banner.
pub fn help_message() -> (s: &'static str)
    ensures
        s@ == "Press SPACE to pause/resume, 'q' to quit"@,
{
    "Press SPACE to pause/resume, 'q' to quit"
}

} // verus!
