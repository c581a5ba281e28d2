//! Signal generation and streaming core of a subject simulator.
//!
//! Real-valued quantities cross into this library as the raw IEEE-754 bit
//! patterns of `f32` values (`f32::to_bits`), so that the wire formats, the
//! byte-truncation policy and the history buffers can be stated and proved
//! over plain integers.
use vstd::prelude::*;

pub mod codec;
pub mod frame;
pub mod raster;
pub mod trace;
pub mod transport;

verus! {

} // verus!
