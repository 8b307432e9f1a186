//! A fixed-capacity contiguous container.
//!
//! A `ConstVec` is created with a capacity that never changes afterwards.
//! Elements are appended up to that capacity, read back as a slice, handed
//! over to an ordinary `Vec`, or drained from both ends through `IntoIter`.
mod const_vec;
mod into_iter;
pub mod laws;

pub use const_vec::ConstVec;
pub use into_iter::IntoIter;
