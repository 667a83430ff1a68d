//! Formatting of the playback-progress readout: `MM:SS/MM:SS`, each field
//! zero-padded to at least two digits, computed from the player's position
//! and duration in whole seconds.

use vstd::prelude::*;

verus! {

/// The decimal digit `d` as a character.
pub open spec fn spec_digit_char(d: int) -> char {
    if d == 0 {
        '0'
    } else if d == 1 {
        '1'
    } else if d == 2 {
        '2'
    } else if d == 3 {
        '3'
    } else if d == 4 {
        '4'
    } else if d == 5 {
        '5'
    } else if d == 6 {
        '6'
    } else if d == 7 {
        '7'
    } else if d == 8 {
        '8'
    } else {
        '9'
    }
}

/// The decimal representation of `n` (no sign, no leading zeros except for
/// `n == 0` itself).
pub open spec fn spec_dec(n: int) -> Seq<char>
    decreases n,
{
    if n < 10 {
        seq![spec_digit_char(n)]
    } else {
        spec_dec(n / 10).push(spec_digit_char(n % 10))
    }
}

/// The decimal representation of `n`, zero-padded on the left to at least
/// two digits.
pub open spec fn spec_pad2(n: int) -> Seq<char> {
    if n < 10 {
        seq!['0', spec_digit_char(n)]
    } else {
        spec_dec(n)
    }
}

/// `total` seconds rendered as minutes and seconds, `MM:SS`.
pub open spec fn spec_mmss(total: int) -> Seq<char> {
    spec_pad2(total / 60) + seq![':'] + spec_pad2(total % 60)
}

/// The playback label: position over duration, `MM:SS/MM:SS`.
pub open spec fn spec_playback_label(position_secs: int, duration_secs: int) -> Seq<char> {
    spec_mmss(position_secs) + seq!['/'] + spec_mmss(duration_secs)
}

/// The label shown before anything has played: `--:--/--:--`.
pub open spec fn spec_idle_label() -> Seq<char> {
    seq!['-', '-', ':', '-', '-', '/', '-', '-', ':', '-', '-']
}

/// The idle label, `--:--/--:--`, as a value.
pub fn idle_label() -> (label: Vec<char>)
    ensures
        label@ == spec_idle_label(),
{
    let label: Vec<char> = vec!['-', '-', ':', '-', '-', '/', '-', '-', ':', '-', '-'];
    proof {
        assert(label@ =~= spec_idle_label());
    }
    label
}

fn digit_char(d: u64) -> (c: char)
    requires
        d < 10,
    ensures
        c == spec_digit_char(d as int),
{
    if d == 0 {
        '0'
    } else if d == 1 {
        '1'
    } else if d == 2 {
        '2'
    } else if d == 3 {
        '3'
    } else if d == 4 {
        '4'
    } else if d == 5 {
        '5'
    } else if d == 6 {
        '6'
    } else if d == 7 {
        '7'
    } else if d == 8 {
        '8'
    } else {
        '9'
    }
}

fn push_dec(out: &mut Vec<char>, n: u64)
    ensures
        final(out)@ == old(out)@ + spec_dec(n as int),
    decreases n,
{
    if n < 10 {
        out.push(digit_char(n));
        proof {
            assert(out@ =~= old(out)@ + spec_dec(n as int));
        }
    } else {
        push_dec(out, n / 10);
        out.push(digit_char(n % 10));
        proof {
            assert(out@ =~= old(out)@ + spec_dec(n as int));
        }
    }
}

fn push_pad2(out: &mut Vec<char>, n: u64)
    ensures
        final(out)@ == old(out)@ + spec_pad2(n as int),
{
    if n < 10 {
        out.push('0');
        out.push(digit_char(n));
        proof {
            assert(out@ =~= old(out)@ + spec_pad2(n as int));
        }
    } else {
        push_dec(out, n);
    }
}

/// The playback label for the given position and duration, exactly as
/// `spec_playback_label` states it.
pub fn format_playback_label(position_secs: u64, duration_secs: u64) -> (label: Vec<char>)
    ensures
        label@ == spec_playback_label(position_secs as int, duration_secs as int),
{
    let mut label: Vec<char> = Vec::new();
    push_pad2(&mut label, position_secs / 60);
    label.push(':');
    push_pad2(&mut label, position_secs % 60);
    label.push('/');
    push_pad2(&mut label, duration_secs / 60);
    label.push(':');
    push_pad2(&mut label, duration_secs % 60);
    proof {
        assert(label@ =~= spec_playback_label(position_secs as int, duration_secs as int));
    }
    label
}

} // verus!
