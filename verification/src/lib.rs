//! A per-frame 2D drawing context for a map-rendering GUI toolkit.
//!
//! The library works in integer fixed-point coordinates: map-space and
//! screen-space positions are counts of `units`, and a camera zoom factor is a
//! count of `ZOOM_UNIT` steps, so that every transform and tessellation step
//! has an exact arithmetic meaning. The surrounding application converts
//! between these units and whatever scalar type its GPU backend wants.

#![allow(unused_imports)]

pub mod canvas;
pub mod drawing;
pub mod geometry;
pub mod render;
