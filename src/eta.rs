//! The ETA: the time left, extrapolated from the time spent so far, and its
//! human-readable form.

use vstd::prelude::*;
use vstd::string::StringExecFns;
use crate::text::{decimal, decimal_string};

verus! {

/// Milliseconds in a second.
pub const MS_PER_SECOND: u128 = 1000;
/// Milliseconds in a minute.
pub const MS_PER_MINUTE: u128 = 60_000;
/// Milliseconds in an hour.
pub const MS_PER_HOUR: u128 = 3_600_000;
/// Milliseconds in a day.
pub const MS_PER_DAY: u128 = 86_400_000;
/// Up to this many milliseconds the ETA is given in milliseconds.
pub const MS_LIMIT: u128 = 3000;
/// Up to 110 seconds the ETA is given in seconds.
pub const SECONDS_LIMIT: u128 = 110_000;
/// Up to 110 minutes the ETA is given in minutes.
pub const MINUTES_LIMIT: u128 = 6_600_000;
/// Up to 46 hours the ETA is given in hours; beyond, in days.
pub const HOURS_LIMIT: u128 = 165_600_000;

/// `a / b` rounded up.
pub open spec fn ceil_div(a: nat, b: nat) -> nat {
    if a % b == 0 {
        a / b
    } else {
        a / b + 1
    }
}

/// Whether a bar with ETA enabled shows an estimate: not at zero, not at
/// the end, and never for an empty range.
pub open spec fn eta_shown(max: nat, progress: nat) -> bool {
    max != 0 && progress != 0 && progress != max
}

/// Time left in whole milliseconds, rounded up: the time spent scaled to the
/// whole range, less the part already done, that is
/// `elapsed * (max - progress) / progress`. Past the end nothing is left.
pub open spec fn remaining_ms(max: nat, progress: nat, elapsed: nat) -> nat {
    if progress >= max || progress == 0 {
        0
    } else {
        ceil_div(elapsed * (max - progress) as nat, progress)
    }
}

/// A duration in milliseconds as the ETA shows it: the unit is picked by
/// the size of the duration, and the count is rounded up in that unit.
pub open spec fn human_duration(ms: nat) -> Seq<char> {
    if ms <= MS_LIMIT {
        decimal(ms) + "ms"@
    } else if ms <= SECONDS_LIMIT {
        decimal(ceil_div(ms, MS_PER_SECOND as nat)) + "s"@
    } else if ms <= MINUTES_LIMIT {
        decimal(ceil_div(ms, MS_PER_MINUTE as nat)) + " minutes"@
    } else if ms <= HOURS_LIMIT {
        decimal(ceil_div(ms, MS_PER_HOUR as nat)) + " hours"@
    } else {
        decimal(ceil_div(ms, MS_PER_DAY as nat)) + " days"@
    }
}

/// The ETA part of a frame: ` (ETA <duration>)` when shown, else nothing.
pub open spec fn eta_suffix(max: nat, progress: nat, elapsed: nat) -> Seq<char> {
    if eta_shown(max, progress) {
        " (ETA "@ + human_duration(remaining_ms(max, progress, elapsed)) + ")"@
    } else {
        Seq::empty()
    }
}

/// No ETA is given at zero progress, at the end, or for an empty range,
/// whatever the time spent.
pub proof fn law_no_eta_at_ends(max: nat, progress: nat, elapsed: nat)
    requires
        progress == 0 || progress == max || max == 0,
    ensures
        eta_suffix(max, progress, elapsed) == Seq::<char>::empty(),
{
}

/// `a / b` rounded up, for `b > 0`.
fn ceil_div_exec(a: u128, b: u128) -> (r: u128)
    requires
        b > 0,
    ensures
        r == ceil_div(a as nat, b as nat),
{
    let q = a / b;
    if a % b == 0 {
        q
    } else {
        assert(q < u128::MAX) by (nonlinear_arith)
            requires
                q == a / b,
                b > 0,
                a % b != 0,
        ;
        q + 1
    }
}

/// The time left in milliseconds (see `remaining_ms`).
pub fn remaining_estimate(max: usize, progress: usize, elapsed_ms: u64) -> (r: u128)
    ensures
        r == remaining_ms(max as nat, progress as nat, elapsed_ms as nat),
{
    if progress >= max || progress == 0 {
        0
    } else {
        let left = (max - progress) as u128;
        let e = elapsed_ms as u128;
        assert(e * left <= u64::MAX * usize::MAX) by (nonlinear_arith)
            requires
                e <= u64::MAX,
                left <= usize::MAX,
        ;
        ceil_div_exec(e * left, progress as u128)
    }
}

/// Writes a duration in milliseconds as the ETA shows it (see
/// `human_duration`).
pub fn format_remaining(ms: u128) -> (r: String)
    ensures
        r@ == human_duration(ms as nat),
{
    if ms <= MS_LIMIT {
        decimal_string(ms).concat("ms")
    } else if ms <= SECONDS_LIMIT {
        decimal_string(ceil_div_exec(ms, MS_PER_SECOND)).concat("s")
    } else if ms <= MINUTES_LIMIT {
        decimal_string(ceil_div_exec(ms, MS_PER_MINUTE)).concat(" minutes")
    } else if ms <= HOURS_LIMIT {
        decimal_string(ceil_div_exec(ms, MS_PER_HOUR)).concat(" hours")
    } else {
        decimal_string(ceil_div_exec(ms, MS_PER_DAY)).concat(" days")
    }
}

/// Appends the ETA part of a frame to `out` (see `eta_suffix`).
pub fn push_eta(out: &mut String, max: usize, progress: usize, elapsed_ms: u64)
    ensures
        final(out)@ == old(out)@ + eta_suffix(max as nat, progress as nat, elapsed_ms as nat),
{
    if max != 0 && progress != 0 && progress != max {
        out.append(" (ETA ");
        let h = format_remaining(remaining_estimate(max, progress, elapsed_ms));
        out.append(h.as_str());
        out.append(")");
    }
    assert(out@ =~= old(out)@ + eta_suffix(max as nat, progress as nat, elapsed_ms as nat));
}

} // verus!
