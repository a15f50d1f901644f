//! Mod-n multiplication circles: points spaced evenly on a circle, each joined
//! to the point whose index is its own times a multiplier, modulo the count.
//!
//! Fractional quantities (multipliers, angles, zoom, pixel positions) are held
//! in fixed point, as whole numbers of millionths (see [`geometry::UNIT`]), so
//! that every rule here is exact integer arithmetic.

pub mod geometry;
pub mod scene;
pub mod style;
