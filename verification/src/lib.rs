//! Procedural cat renderer: scene generation, raster-command composition and
//! canvas serialization for a small image service.
//!
//! Geometry is carried in fixed-point milli-units (one unit = 1000 milli)
//! so that every coordinate computation is exact integer arithmetic.

use vstd::prelude::*;

pub mod ellipse;
pub mod encode;
pub mod gate;
pub mod geom;
pub mod params;
pub mod rng;
pub mod scene;
pub mod server_gate;
pub mod style;

verus! {

/// The 12-hour clock hour at which cats can be generated.
pub const HOUR: u32 = 2;

/// The minute at which cats can be generated.
pub const MINUTE: u32 = 22;

/// Seconds of leeway for clients that think it's almost the right minute.
pub const CLIENT_LEEWAY: i64 = 1;

/// Width of the rendered canvas in pixels.
pub const CANVAS_WIDTH: u32 = 400;

/// Height of the rendered canvas in pixels.
pub const CANVAS_HEIGHT: u32 = 256;

} // verus!
