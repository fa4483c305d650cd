//! A copy-on-write, sub-sliceable sequence of `u64`.
//!
//! A [`CowSlice`] behaves like an owned, clonable, mutable sequence. Clones
//! and sub-slices share one reference-counted buffer until one of them is
//! written to; the writer then takes a private copy of what it shows.
//!
//! - [`window`]: the mathematical model of one view.
//! - [`sharing`]: the model of many views over shared buffers, and the proof
//!   that a write through one of them is not seen through another.
//! - [`buffer`]: the shared buffer, `ecow::EcoVec<u64>`, and what is assumed
//!   of it.
//! - [`bounds`]: the ends of a range.
//! - [`cowslice`]: the view itself, with its operations.
//! - [`compare`]: equality and lexicographic order of views.
//! - [`hashing`]: hashing of views.

pub mod bounds;
pub mod buffer;
pub mod compare;
pub mod cowslice;
pub mod hashing;
pub mod sharing;
pub mod window;

pub use bounds::SliceBound;
pub use cowslice::CowSlice;
pub use window::Window;
