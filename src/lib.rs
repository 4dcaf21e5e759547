//! Lifecycle-safe handles to a reference-counted device-management session.
//!
//! The session itself lives in an outside subsystem, which counts references
//! to it and frees it when the count drops to zero. This crate decides, for
//! every owning value, when an increment or a decrement is due, and proves
//! that the two stay balanced.
pub mod account;
pub mod context;
pub mod error;
pub mod handle;

pub use account::{Account, RefCount, Step};
pub use context::Context;
pub use error::Error;
pub use handle::Handle;
