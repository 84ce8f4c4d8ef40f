use vstd::prelude::*;

use crate::scenes::RenderSettings;

verus! {

/// Settings of the many-spheres cover scene: 1280 by 720 pixels, 256 samples
/// per pixel, at most 16 bounces per path, 12 workers.
pub fn get_render_settings() -> (r: RenderSettings)
    ensures
        r.img_size == (1280u32, 720u32),
        r.samples_per_pixel == 256,
        r.max_depth == 16,
        r.threads == 12,
{
    RenderSettings { img_size: (1280, 720), samples_per_pixel: 256, max_depth: 16, threads: 12 }
}

} // verus!
