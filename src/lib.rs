//! The discrete core of a Monte Carlo path tracer: the depth-bounded
//! integrator loop, which is generic over the scene's numeric representation;
//! the ray type; clamped lookup into environment textures; the render
//! settings of the bundled scenes; and the pixel buffer with its PPM text
//! form.
use vstd::prelude::*;

pub mod output;
pub mod render;
pub mod scenes;
pub mod utils;

verus! {

} // verus!
