use vstd::prelude::*;

pub mod ppm;

verus! {

/// An image that is filled pixel by pixel. Coordinates are `(x, y)` with `x`
/// counted from the left and `y` counted from the bottom row.
pub trait ImageGenerator: Sized {
    /// The invariant of the image's storage.
    spec fn wf(&self) -> bool;

    /// Width and height in pixels.
    spec fn size(&self) -> (u32, u32);

    /// The color stored at `(x, y)`.
    spec fn pixel(&self, x: int, y: int) -> (u8, u8, u8);

    /// A black image of the given size.
    fn new(size: (u32, u32)) -> (r: Self)
        requires
            size.0 * size.1 <= u32::MAX,
        ensures
            r.wf(),
            r.size() == size,
            forall|x: int, y: int|
                0 <= x < size.0 && 0 <= y < size.1 ==> #[trigger] r.pixel(x, y) == (0u8, 0u8, 0u8),
    ;

    /// Stores `color` at `coord`, leaving every other pixel as it was.
    fn set_pixel(&mut self, coord: (u32, u32), color: (u8, u8, u8))
        requires
            old(self).wf(),
            coord.0 < old(self).size().0,
            coord.1 < old(self).size().1,
        ensures
            final(self).wf(),
            final(self).size() == old(self).size(),
            final(self).pixel(coord.0 as int, coord.1 as int) == color,
            forall|x: int, y: int|
                0 <= x < old(self).size().0 && 0 <= y < old(self).size().1 && (x != coord.0 || y
                    != coord.1) ==> #[trigger] final(self).pixel(x, y) == old(self).pixel(x, y),
    ;
}

} // verus!
