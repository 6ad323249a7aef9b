//! Driver update mechanism: verify, cache and load server-distributed driver
//! binaries, and sign them in the first place.
//!
//! The library decides and computes; the program around it reads and writes
//! files, opens shared libraries and calls into them. Where a decision needs what
//! only the program can find out, the library hands out an action and takes back
//! what came of it ([`loader::DriverLoad`], [`cache::CacheLookup`]), or hands out
//! the changes to make ([`cache::FileStep`]).
//!
//! Proof functions whose names begin with `law_` state what holds of several
//! functions together.

pub mod abi;
pub mod cache;
pub mod crypto;
pub mod driver;
pub mod loader;
pub mod path;
pub mod sign_driver;
pub mod signature;
pub mod text;
pub mod update;

pub use update::{DriverUpdatePolicy, DriverUpdateStatus};
