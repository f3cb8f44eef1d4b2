//! Text of the recording HUD.

use vstd::prelude::*;
use std::time::Duration;
use crate::text::{decimal, push_char, push_decimal, push_zero_padded, zero_padded};

verus! {

/// The whole seconds of a duration, as `Duration::as_secs` reports them.
pub uninterp spec fn duration_whole_secs(d: Duration) -> u64;

/// `Duration::as_secs`: the whole seconds of the duration.
#[verifier::external_body]
fn whole_secs(d: &Duration) -> (secs: u64)
    ensures
        secs == duration_whole_secs(*d),
{
    d.as_secs()
}

/// `MM:SS` for under an hour, `H:MM:SS` from an hour on.
pub open spec fn clock_text(total_secs: u64) -> Seq<char> {
    let hours = total_secs / 3600;
    let minutes = (total_secs % 3600) / 60;
    let seconds = total_secs % 60;
    if hours > 0 {
        decimal(hours as nat) + seq![':'] + zero_padded(minutes as nat, 2) + seq![':']
            + zero_padded(seconds as nat, 2)
    } else {
        zero_padded(minutes as nat, 2) + seq![':'] + zero_padded(seconds as nat, 2)
    }
}

/// Formats a number of seconds as `MM:SS`, or `H:MM:SS` from an hour on.
pub fn format_clock(total_secs: u64) -> (s: String)
    ensures
        s@ == clock_text(total_secs),
{
    let hours = total_secs / 3600;
    let minutes = (total_secs % 3600) / 60;
    let seconds = total_secs % 60;
    let mut s = String::new();
    if hours > 0 {
        push_decimal(&mut s, hours);
        push_char(&mut s, ':');
    }
    push_zero_padded(&mut s, minutes, 2);
    push_char(&mut s, ':');
    push_zero_padded(&mut s, seconds, 2);
    assert(s@ =~= clock_text(total_secs));
    s
}

/// Formats a duration as `MM:SS`, or `H:MM:SS` from an hour on; the
/// fraction of a second is dropped.
pub fn format_duration(d: Duration) -> (s: String)
    ensures
        s@ == clock_text(duration_whole_secs(d)),
{
    format_clock(whole_secs(&d))
}

} // verus!
