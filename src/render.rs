use vstd::prelude::*;

pub mod environment;
pub mod sampler;

verus! {

} // verus!
