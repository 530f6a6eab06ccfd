//! A small record store: one `User` per file, directly inside a base directory,
//! addressed by an entry key that is checked to be exactly one path segment.
//!
//! The library decides; the caller does the file system work. Each operation
//! is a short sequence of steps: the library names the next thing to do on disk
//! (`ReadStep`, `WriteStep`), the caller does it and hands the outcome back, and
//! the library says what follows, down to the final outcome. `laws` states
//! what reads and writes come to against a directory that behaves.

pub mod entry;
pub mod error;
pub mod laws;
pub mod steps;
pub mod store;

pub use entry::ValidEntry;
pub use error::{Failure, Fault};
pub use steps::{ReadStep, WriteStep};
pub use store::{DataStore, User};
