//! Host-side planning for a six-stage compute pipeline that turns a Bayer
//! raw capture into packed RGBA8 pixels.
//!
//! The GPU work itself (resource creation, command recording, submission)
//! is driven from outside; everything it decides on is computed and proved
//! here.
use vstd::prelude::*;

pub mod cfa;
pub mod context;
pub mod driver;
pub mod frame;
pub mod stage;

verus! {

} // verus!
