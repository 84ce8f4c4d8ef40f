use vstd::prelude::*;

use crate::scenes::RenderSettings;

verus! {

/// Settings of the glass-ball scene: 600 by 400 pixels, 1024 samples per
/// pixel and at most 16 bounces per path. The scene names no worker count of
/// its own; it is given the 12 workers of the cover scene.
pub fn get_render_settings() -> (r: RenderSettings)
    ensures
        r.img_size == (600u32, 400u32),
        r.samples_per_pixel == 1024,
        r.max_depth == 16,
        r.threads == 12,
{
    RenderSettings { img_size: (600, 400), samples_per_pixel: 1024, max_depth: 16, threads: 12 }
}

} // verus!
