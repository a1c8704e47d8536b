//! The simulation clock: a user-adjustable time-scale factor.
//!
//! The factor multiplies every integration step. It starts at the floor,
//! moves in whole steps of one, and is clamped to `[TIME_SCALE_MIN,
//! TIME_SCALE_MAX]` on every update, so the only values it ever takes are
//! 1, 2 and 3.

use vstd::prelude::*;

verus! {

/// Smallest value the time scale can take; also its starting value.
pub const TIME_SCALE_MIN: u8 = 1;

/// Largest value the time scale can take.
pub const TIME_SCALE_MAX: u8 = 3;

/// The two level-triggered control signals sampled once per frame.
///
/// A held key re-applies its adjustment every frame it remains active.
#[derive(Clone, Copy, Debug, PartialEq, Eq, Structural)]
pub struct ControlEvents {
    pub increase: bool,
    pub decrease: bool,
}

/// The clock invariant: the scale stays within its clamping band.
pub open spec fn time_scale_valid(ts: int) -> bool {
    TIME_SCALE_MIN <= ts <= TIME_SCALE_MAX
}

/// One frame's clock update: the increase signal is applied first, then the
/// decrease signal, each clamped to the band.
pub open spec fn step_time_scale(ts: int, increase: bool, decrease: bool) -> int {
    let raised = if increase {
        if ts + 1 <= TIME_SCALE_MAX { ts + 1 } else { TIME_SCALE_MAX as int }
    } else {
        ts
    };
    if decrease {
        if raised - 1 >= TIME_SCALE_MIN { raised - 1 } else { TIME_SCALE_MIN as int }
    } else {
        raised
    }
}

/// The time scale after a whole sequence of per-frame control events,
/// applied oldest first.
pub open spec fn time_scale_after(ts: int, events: Seq<ControlEvents>) -> int
    decreases events.len(),
{
    if events.len() == 0 {
        ts
    } else {
        step_time_scale(
            time_scale_after(ts, events.drop_last()),
            events.last().increase,
            events.last().decrease,
        )
    }
}

/// Applies one frame's control events to the scale.
pub fn stepped_time_scale(ts: u8, events: ControlEvents) -> (r: u8)
    requires
        time_scale_valid(ts as int),
    ensures
        r as int == step_time_scale(ts as int, events.increase, events.decrease),
        time_scale_valid(r as int),
{
    let mut scale: u8 = ts;
    if events.increase {
        scale = if scale + 1 <= TIME_SCALE_MAX { scale + 1 } else { TIME_SCALE_MAX };
    }
    if events.decrease {
        scale = if scale >= TIME_SCALE_MIN + 1 { scale - 1 } else { TIME_SCALE_MIN };
    }
    scale
}

/// Clamping law: from a valid scale, no sequence of increase/decrease events
/// can drive the time scale outside `[TIME_SCALE_MIN, TIME_SCALE_MAX]`.
pub proof fn lemma_time_scale_clamped(ts: int, events: Seq<ControlEvents>)
    requires
        time_scale_valid(ts),
    ensures
        time_scale_valid(time_scale_after(ts, events)),
    decreases events.len(),
{
    if events.len() > 0 {
        lemma_time_scale_clamped(ts, events.drop_last());
    }
}

} // verus!
