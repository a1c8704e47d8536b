//! The static arena backdrop.
//!
//! The arena is a rectangle covering a fixed fraction (nine tenths) of the
//! presentation surface. It is computed once at startup, sizes only the
//! backdrop, and never constrains the agents: leaving the arena is allowed
//! by design.

use vstd::prelude::*;

verus! {

/// Numerator of the fixed coverage fraction of the surface.
pub const ARENA_COVERAGE_NUM: u64 = 9;

/// Denominator of the fixed coverage fraction of the surface.
pub const ARENA_COVERAGE_DEN: u64 = 10;

/// The backdrop's extent, in milli-units; read-only after setup.
#[derive(Clone, Copy, Debug, PartialEq, Eq, Structural)]
pub struct ArenaBounds {
    pub width: u64,
    pub height: u64,
}

/// Derives the backdrop extent from the presentation surface's dimensions
/// (milli-units): each side is scaled by the coverage fraction, rounded
/// down.
pub fn arena_bounds(surface_width: u64, surface_height: u64) -> (b: ArenaBounds)
    requires
        surface_width <= u64::MAX / ARENA_COVERAGE_NUM,
        surface_height <= u64::MAX / ARENA_COVERAGE_NUM,
    ensures
        b.width as int == surface_width as int * ARENA_COVERAGE_NUM as int
            / ARENA_COVERAGE_DEN as int,
        b.height as int == surface_height as int * ARENA_COVERAGE_NUM as int
            / ARENA_COVERAGE_DEN as int,
{
    ArenaBounds {
        width: surface_width * ARENA_COVERAGE_NUM / ARENA_COVERAGE_DEN,
        height: surface_height * ARENA_COVERAGE_NUM / ARENA_COVERAGE_DEN,
    }
}

} // verus!
