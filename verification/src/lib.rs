//! A bounded, FIFO, slice-oriented queue over one contiguous growable buffer.
//!
//! [`SliceQueue`] lets a producer push elements in bulk (by ownership, by
//! cloning from a slice, or by filling a reserved tail region in place) and
//! lets a consumer pop elements in bulk (as an owned batch, or directly into
//! a caller-supplied buffer), while enforcing a configurable maximum element
//! count and reclaiming unused backing capacity after drains.

mod bounds;
mod policy;
mod storage;

pub mod laws;
mod queue;

pub use bounds::Bounds;
pub use bounds::EndBound;
pub use bounds::StartBound;
pub use policy::should_shrink;
pub use policy::spec_should_shrink;
pub use policy::SHRINK_LEN_FLOOR;
pub use queue::kept_count;
pub use queue::LimitExceeded;
pub use queue::SliceQueue;
