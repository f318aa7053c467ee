//! Advisory file locking and space preallocation, as one contract over the
//! locking and allocation primitives of different operating systems.
//!
//! The operating system owns every lock and every block. This crate holds
//! the decisions around its calls: which call a request turns into, what a
//! reply means, and what is reported to the caller. Each operation is a small
//! machine: it names the next call, the caller performs it on the open file
//! and hands the reply back. Nothing here opens, reads or locks a file.
//!
//! - [`platform`]: the systems, their locking primitives, allocation tiers
//!   and error codes.
//! - [`lock`]: the lock engine.
//! - [`allocation`]: the allocation engine.
//! - [`duplication`]: a second reference to an open file.
//! - [`stats`]: filesystem statistics.
//! - [`error`]: what an operation reports when it fails.
//! - [`lock_model`] and [`space_model`]: what the platforms do, as ghost
//!   models, with the laws that the engines obey under them.

pub mod error;
pub mod platform;
pub mod lock;
pub mod lock_model;
pub mod allocation;
pub mod space_model;
pub mod duplication;
pub mod stats;
