//! The conversions and the decision logic behind a C interface to a WebGPU implementation.
use vstd::prelude::*;

pub mod conv;
pub mod device;
pub mod error;
pub mod features;
pub mod flags;
pub mod format;
pub mod limits;
pub mod logging;
pub mod native;
pub mod resource;
pub mod shader;
pub mod surface;
pub mod utils;

verus! {

} // verus!
