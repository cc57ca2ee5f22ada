use vstd::prelude::*;

pub mod error;
pub mod model;
pub mod session;
pub mod shape;
pub mod tensor;

verus! {

} // verus!
