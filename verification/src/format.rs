//! Transport clock text: a duration as three fields, `PP:SS.mmm`, where
//! `PP` counts whole periods of 36 seconds, `SS` the seconds within the
//! minute and `mmm` the milliseconds within the second.

use crate::play_state::{span, PlayState};
use vstd::prelude::*;
use vstd::string::StringExecFns;

verus! {

pub const NANOS_PER_MILLI: u64 = 1_000_000;

/// Milliseconds counted by one step of the leading field of the clock text.
pub const MILLIS_PER_MINUTE_FIELD: u64 = 36_000;

/// The character of one decimal digit.
pub open spec fn digit_char(d: int) -> char {
    if d == 0 {
        '0'
    } else if d == 1 {
        '1'
    } else if d == 2 {
        '2'
    } else if d == 3 {
        '3'
    } else if d == 4 {
        '4'
    } else if d == 5 {
        '5'
    } else if d == 6 {
        '6'
    } else if d == 7 {
        '7'
    } else if d == 8 {
        '8'
    } else {
        '9'
    }
}

/// Decimal digits of `n`, most significant first, with no leading zero
/// (a single `0` for zero).
pub open spec fn decimal(n: nat) -> Seq<char>
    decreases n,
{
    if n < 10 {
        seq![digit_char(n as int)]
    } else {
        decimal(n / 10).push(digit_char((n % 10) as int))
    }
}

/// `s` with zeros put in front until it is at least `width` long.
pub open spec fn zero_padded(s: Seq<char>, width: nat) -> Seq<char> {
    if s.len() >= width {
        s
    } else {
        Seq::new((width - s.len()) as nat, |i: int| '0') + s
    }
}

/// The three fields of the clock text for a duration in nanoseconds:
/// whole periods of 36 seconds, seconds within the minute, milliseconds
/// within the second.
pub open spec fn clock_fields(nanos: nat) -> (nat, nat, nat) {
    let millis = nanos / 1_000_000;
    (millis / 36_000, (millis / 1000) % 60, millis % 1000)
}

/// The clock text of a duration in nanoseconds.
pub open spec fn format_duration_spec(nanos: nat) -> Seq<char> {
    let (minutes, seconds, millis) = clock_fields(nanos);
    zero_padded(decimal(minutes), 2) + seq![':'] + zero_padded(decimal(seconds), 2) + seq!['.']
        + zero_padded(decimal(millis), 3)
}

/// What the clock shows at `now`: the time since playback started while
/// playing, zero while stopped or paused.
pub open spec fn elapsed_spec(play_state: PlayState, now: u64) -> u64 {
    match play_state {
        PlayState::Playing { start_time } => span(now, start_time),
        _ => 0,
    }
}

fn digit_str(d: u64) -> (s: &'static str)
    requires
        d < 10,
    ensures
        s@ == seq![digit_char(d as int)],
{
    proof {
        reveal_strlit("0");
        reveal_strlit("1");
        reveal_strlit("2");
        reveal_strlit("3");
        reveal_strlit("4");
        reveal_strlit("5");
        reveal_strlit("6");
        reveal_strlit("7");
        reveal_strlit("8");
        reveal_strlit("9");
    }
    let s = if d == 0 {
        "0"
    } else if d == 1 {
        "1"
    } else if d == 2 {
        "2"
    } else if d == 3 {
        "3"
    } else if d == 4 {
        "4"
    } else if d == 5 {
        "5"
    } else if d == 6 {
        "6"
    } else if d == 7 {
        "7"
    } else if d == 8 {
        "8"
    } else {
        "9"
    };
    assert(s@ =~= seq![digit_char(d as int)]);
    s
}

/// Number of decimal digits of `n`.
fn decimal_len(n: u64) -> (len: usize)
    ensures
        len == decimal(n as nat).len(),
        1 <= len <= 20,
    decreases n,
{
    if n < 10 {
        1
    } else {
        let rest = decimal_len(n / 10);
        proof {
            lemma_decimal_len_bound(n as nat);
        }
        rest + 1
    }
}

/// A number below `10^20` has at most twenty digits.
proof fn lemma_decimal_len_bound(n: nat)
    requires
        n <= u64::MAX,
    ensures
        decimal(n).len() <= 20,
{
    reveal_with_fuel(decimal, 21);
}

/// Appends the decimal digits of `n` to `out`.
pub(crate) fn append_decimal(out: &mut String, n: u128)
    ensures
        final(out)@ == old(out)@ + decimal(n as nat),
    decreases n,
{
    if n >= 10 {
        append_decimal(out, n / 10);
    }
    out.append(digit_str((n % 10) as u64));
    assert(out@ =~= old(out)@ + decimal(n as nat));
}

fn append_padded(out: &mut String, n: u64, width: usize)
    requires
        width <= 20,
    ensures
        final(out)@ == old(out)@ + zero_padded(decimal(n as nat), width as nat),
{
    let len = decimal_len(n);
    let mut i: usize = len;
    while i < width
        invariant
            len <= i,
            (i <= width || i == len),
            width <= 20,
            out@ == old(out)@ + Seq::new((i - len) as nat, |k: int| '0'),
        decreases width - i,
    {
        proof {
            reveal_strlit("0");
        }
        out.append("0");
        i = i + 1;
        assert(out@ =~= old(out)@ + Seq::new((i - len) as nat, |k: int| '0'));
    }
    let ghost padded = out@;
    append_decimal(out, n as u128);
    proof {
        let s = decimal(n as nat);
        if s.len() >= width {
            assert(padded =~= old(out)@);
        }
        assert(out@ =~= old(out)@ + zero_padded(s, width as nat));
    }
}

/// Writes a duration, given in nanoseconds, as clock text: the count of
/// whole 36-second periods, a colon, the seconds within the minute, a full
/// stop and the milliseconds within the second, the first two padded with
/// zeros to two digits and the last to three.
pub fn format_duration(duration: u64) -> (text: String)
    ensures
        text@ == format_duration_spec(duration as nat),
{
    let millis_total = duration / NANOS_PER_MILLI;
    let millis = millis_total % 1000;
    let seconds = (millis_total / 1000) % 60;
    let minutes = millis_total / MILLIS_PER_MINUTE_FIELD;
    let mut text = String::new();
    append_padded(&mut text, minutes, 2);
    proof {
        reveal_strlit(":");
        reveal_strlit(".");
    }
    text.append(":");
    append_padded(&mut text, seconds, 2);
    text.append(".");
    append_padded(&mut text, millis, 3);
    assert(text@ =~= format_duration_spec(duration as nat));
    text
}

/// What the clock shows at `now`: the time since the transport started
/// playing. For a stopped or a paused transport it shows zero.
pub fn duration_since_play_state(play_state: &PlayState, now: u64) -> (elapsed: u64)
    ensures
        elapsed == elapsed_spec(*play_state, now),
{
    match play_state {
        PlayState::Playing { start_time } => now.saturating_sub(*start_time),
        _ => 0,
    }
}

/// Clock text of the time elapsed at `now` since the transport started.
pub fn format_play_state(play_state: &PlayState, now: u64) -> (text: String)
    ensures
        text@ == format_duration_spec(elapsed_spec(*play_state, now) as nat),
{
    format_duration(duration_since_play_state(play_state, now))
}

} // verus!
