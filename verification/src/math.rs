//! Plain-value carriers for the runtime's geometric data.
//!
//! The session core never computes with positions, orientations or field-of-view
//! angles: it copies them from the runtime to its consumers unchanged. Each
//! scalar is therefore carried as the raw 32-bit pattern of the runtime's
//! single-precision value, which lets every hand-off be stated and proved
//! exactly (the published value equals the sampled value, bit for bit).

use vstd::prelude::*;

verus! {

/// A three-component vector, each component a raw 32-bit scalar pattern.
#[derive(Clone, Copy, Debug, PartialEq, Eq, Structural)]
pub struct Vec3Bits {
    pub x: u32,
    pub y: u32,
    pub z: u32,
}

/// A unit quaternion, each component a raw 32-bit scalar pattern.
#[derive(Clone, Copy, Debug, PartialEq, Eq, Structural)]
pub struct QuatBits {
    pub x: u32,
    pub y: u32,
    pub z: u32,
    pub w: u32,
}

/// A rigid pose: position plus orientation.
#[derive(Clone, Copy, Debug, PartialEq, Eq, Structural)]
pub struct Pose {
    pub position: Vec3Bits,
    pub orientation: QuatBits,
}

/// Per-eye field of view, four half-angles as raw 32-bit scalar patterns.
#[derive(Clone, Copy, Debug, PartialEq, Eq, Structural)]
pub struct Fov {
    pub angle_left: u32,
    pub angle_right: u32,
    pub angle_up: u32,
    pub angle_down: u32,
}

/// One located display view: where the eye is and what it sees.
///
/// Mirrors the runtime's per-view location result (pose plus field of view).
#[derive(Clone, Copy, Debug, PartialEq, Eq, Structural)]
pub struct ViewPose {
    pub pose: Pose,
    pub fov: Fov,
}

/// A camera transform published to the scene graph: the view's pose, copied.
#[derive(Clone, Copy, Debug, PartialEq, Eq, Structural)]
pub struct ViewTransform {
    pub translation: Vec3Bits,
    pub rotation: QuatBits,
}

} // verus!
