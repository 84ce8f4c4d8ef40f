use vstd::prelude::*;

pub mod cover_scene;
pub mod scene1;

verus! {

/// Configuration of one render: image size in pixels, samples taken per
/// pixel, the bounce budget of each path and the number of workers.
#[derive(Clone, Copy, Debug, PartialEq, Eq)]
pub struct RenderSettings {
    pub img_size: (u32, u32),
    pub samples_per_pixel: u32,
    pub max_depth: u32,
    pub threads: u32,
}

} // verus!
