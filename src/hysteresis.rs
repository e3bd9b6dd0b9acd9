use vstd::prelude::*;

verus! {

/// Absolute difference of two temperatures.
pub open spec fn temperature_delta(a: u32, b: u32) -> nat {
    if a >= b {
        (a - b) as nat
    } else {
        (b - a) as nat
    }
}

/// Whether a move from `last` to `current` is large enough to act on.
pub open spec fn update_due(current: u32, last: u32, tolerance: u32) -> bool {
    temperature_delta(current, last) >= tolerance
}

/// The hysteresis gate: an update is due exactly when the reading has moved
/// at least `tolerance` degrees away from the last one that was acted on.
pub fn should_update(current: u32, last: u32, tolerance: u32) -> (r: bool)
    ensures
        r == update_due(current, last, tolerance),
{
    let diff: u32 = if current >= last {
        current - last
    } else {
        last - current
    };
    diff >= tolerance
}

} // verus!
