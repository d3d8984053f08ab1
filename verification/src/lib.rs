//! Contracts for handing memory buffers to DMA engines.
//!
//! A buffer is described to the hardware by a pair of an address and a count of
//! words. The traits of this crate say which values may be described that way,
//! and every description they hand out is proved to carry the right count.

pub mod descriptor;
pub mod word;
pub mod target;
pub mod buffer;

pub use crate::word::Word;
pub use crate::buffer::{ReadBuffer, WriteBuffer};
pub use crate::target::{ReadTarget, WriteTarget};
