//! Scaling of a raw nanosecond duration to a human-readable unit.

use vstd::prelude::*;

verus! {

/// Index on the unit ladder ns -> μs -> ms -> s that a raw nanosecond
/// count `d` scales to: the count is divided by 1000 while it is at
/// least 1000 and a larger unit remains.
pub open spec fn scale_unit(d: nat) -> nat {
    if d < 1_000 {
        0
    } else if d < 1_000_000 {
        1
    } else if d < 1_000_000_000 {
        2
    } else {
        3
    }
}

/// Magnitude of `d` nanoseconds in its scaled unit. Division truncates:
/// no rounding, no fractional digit is kept.
pub open spec fn scale_mag(d: nat) -> nat {
    if d < 1_000 {
        d
    } else if d < 1_000_000 {
        d / 1_000
    } else if d < 1_000_000_000 {
        d / 1_000_000
    } else {
        d / 1_000_000_000
    }
}

/// Label of unit `u` on the ladder.
pub open spec fn unit_label(u: nat) -> Seq<char> {
    if u == 0 {
        "ns"@
    } else if u == 1 {
        "μs"@
    } else if u == 2 {
        "ms"@
    } else {
        "s"@
    }
}

/// Scales a raw nanosecond duration to the pair of magnitude and unit
/// label. Seconds are the largest unit: a duration of 1000 seconds or
/// more keeps the seconds label, so only there may the magnitude
/// exceed 999.
pub fn to_number_and_unit(elapsed: u64) -> (r: (u64, &'static str))
    ensures
        r.0 as nat == scale_mag(elapsed as nat),
        r.1@ == unit_label(scale_unit(elapsed as nat)),
{
    if elapsed < 1_000 {
        (elapsed, "ns")
    } else if elapsed < 1_000_000 {
        (elapsed / 1_000, "μs")
    } else if elapsed < 1_000_000_000 {
        (elapsed / 1_000_000, "ms")
    } else {
        (elapsed / 1_000_000_000, "s")
    }
}

/// The scaled magnitude is always below 1000 unless the unit is already
/// the largest: scaling never stops while a larger unit could absorb
/// another factor of 1000.
pub proof fn lemma_scale_magnitude_bounded(d: nat)
    ensures
        scale_unit(d) < 3 ==> scale_mag(d) < 1_000,
{
}

} // verus!
