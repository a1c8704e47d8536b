//! Randomness for the spawner and the velocity randomizer.
//!
//! One trusted call draws a raw sample; everything that turns a sample into
//! a bounded fixed-point offset is verified. Nothing is assumed about the
//! sample's value, so every contract downstream holds whatever was drawn.

use vstd::prelude::*;

verus! {

use crate::agent::Vec2I;

/// The offset a raw sample maps to: the sample reduced to the odd window
/// `[0, 2 * scale]`, recentred on zero.
pub open spec fn offset_of_sample(sample: u32, scale: u32) -> int
    recommends
        1 <= scale,
{
    (sample as int) % (2 * scale + 1) - scale
}

/// Largest half-width `offset_from_sample` accepts; keeps `2 * scale + 1`
/// well inside `u32`.
pub const OFFSET_SCALE_MAX: u32 = 1000000;

/// Relies on rand::random: a sample drawn from the thread-local generator.
/// Nothing is promised of the value; callers state what holds of every
/// outcome.
#[verifier::external_body]
fn sample_u32() -> u32 {
    rand::random::<u32>()
}

/// Maps a raw sample into the window `[-scale, scale]`, exactly as
/// `offset_of_sample` says.
pub fn offset_from_sample(sample: u32, scale: u32) -> (r: i64)
    requires
        1 <= scale <= OFFSET_SCALE_MAX,
    ensures
        r as int == offset_of_sample(sample, scale),
        -(scale as int) <= r as int <= scale as int,
{
    let window: u32 = 2 * scale + 1;
    let reduced: u32 = sample % window;
    (reduced as i64) - (scale as i64)
}

/// Draws one velocity offset uniformly from `[-scale, scale]`
/// (milli-units per second).
pub fn random_offset(scale: u32) -> (r: i64)
    requires
        1 <= scale <= OFFSET_SCALE_MAX,
    ensures
        -(scale as int) <= r as int <= scale as int,
{
    let sample = sample_u32();
    offset_from_sample(sample, scale)
}

/// Draws a velocity vector whose components are independent samples from
/// `[-scale, scale]` (milli-units per second).
pub fn random_velocity(scale: u32) -> (v: Vec2I)
    requires
        1 <= scale <= OFFSET_SCALE_MAX,
    ensures
        -(scale as int) <= v.x as int <= scale as int,
        -(scale as int) <= v.y as int <= scale as int,
{
    Vec2I { x: random_offset(scale), y: random_offset(scale) }
}

} // verus!
