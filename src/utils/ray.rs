use vstd::prelude::*;

verus! {

/// A vector type that can be scaled to unit length.
pub trait Normalize: Sized {
    /// The vector divided by its length.
    spec fn unit_spec(&self) -> Self;

    /// The vector divided by its length; called on nonzero vectors only.
    fn unit(&self) -> (r: Self)
        ensures
            r == self.unit_spec(),
    ;
}

/// A half-line from `origin` along `direction`. The direction is normalized
/// when the ray is built, so a parameter `t` along the ray is a true distance.
pub struct Ray<V> {
    pub origin: V,
    pub direction: V,
}

impl<V: Normalize> Ray<V> {
    /// The ray from `origin` along `direction` scaled to unit length.
    pub fn new(origin: V, direction: V) -> (r: Ray<V>)
        ensures
            r.origin == origin,
            r.direction == direction.unit_spec(),
    {
        Ray { origin: origin, direction: direction.unit() }
    }
}

} // verus!
