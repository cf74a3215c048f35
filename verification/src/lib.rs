//! Model, view and projection transforms for a GPU render loop.
//!
//! The library composes 4x4 single-precision matrices from translation,
//! rotation, scale and camera parameters, and keeps a stateful
//! [`projection::Projection`] whose combined matrix is always the product of
//! its three parts.  Scalars are handled as IEEE 754 bit patterns so that
//! every matrix entry is pinned down exactly; see [`fbits`].

pub mod camera;
pub mod fbits;
pub mod mat4;
pub mod projection;
pub mod sqrt;
pub mod transform;
pub mod vec3;

use vstd::prelude::*;

verus! {

} // verus!
