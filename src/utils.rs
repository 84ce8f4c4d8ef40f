use vstd::prelude::*;

pub mod ray;

verus! {

} // verus!
