//! Rendering a time of day as `HH:MM:SS.mmm`.
use crate::time::TimeOfDay;
use vstd::prelude::*;
use vstd::string::StrSliceExecFns;
use vstd::string::StringExecFns;

verus! {

/// The ten decimal digits in order.
pub open spec fn digits() -> Seq<char> {
    seq!['0', '1', '2', '3', '4', '5', '6', '7', '8', '9']
}

/// The last `width` decimal digits of `n`, most significant first, with
/// leading zeros.
pub open spec fn padded_decimal(n: nat, width: nat) -> Seq<char>
    decreases width,
{
    if width == 0 {
        Seq::empty()
    } else {
        padded_decimal(n / 10, (width - 1) as nat).push(digits()[(n % 10) as int])
    }
}

/// `HH:MM:SS.mmm` for a time of day.
pub open spec fn clock_text(t: TimeOfDay) -> Seq<char> {
    padded_decimal(t.hour as nat, 2) + seq![':'] + padded_decimal(t.minute as nat, 2) + seq![':']
        + padded_decimal(t.second as nat, 2) + seq!['.'] + padded_decimal(t.milli as nat, 3)
}

/// Appends the decimal digit `d`.
fn append_digit(s: &mut String, d: u32)
    requires
        d < 10,
    ensures
        final(s)@ == old(s)@.push(digits()[d as int]),
{
    let all = "0123456789";
    proof {
        reveal_strlit("0123456789");
    }
    assert(all.is_ascii());
    let one = all.substring_ascii(d as usize, d as usize + 1);
    assert(all@ =~= digits());
    assert(one@ =~= seq![digits()[d as int]]);
    s.append(one);
}

/// Appends the last `width` decimal digits of `n`.
fn append_padded(s: &mut String, n: u32, width: u32)
    ensures
        final(s)@ == old(s)@ + padded_decimal(n as nat, width as nat),
    decreases width,
{
    if width > 0 {
        append_padded(s, n / 10, width - 1);
        append_digit(s, n % 10);
        assert(s@ =~= old(s)@ + padded_decimal(n as nat, width as nat));
    } else {
        assert(s@ =~= old(s)@ + padded_decimal(n as nat, width as nat));
    }
}

/// Appends `HH:MM:SS.mmm` for `t`.
pub fn append_clock_text(s: &mut String, t: &TimeOfDay)
    ensures
        final(s)@ == old(s)@ + clock_text(*t),
{
    proof {
        reveal_strlit(":");
        reveal_strlit(".");
    }
    append_padded(s, t.hour, 2);
    s.append(":");
    append_padded(s, t.minute, 2);
    s.append(":");
    append_padded(s, t.second, 2);
    s.append(".");
    append_padded(s, t.milli, 3);
    assert(s@ =~= old(s)@ + clock_text(*t));
}

} // verus!
