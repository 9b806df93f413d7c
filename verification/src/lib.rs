//! Confined path resolution below a base directory, without any I/O of its own.
//!
//! A path is resolved one component at a time under a sandbox policy, so that
//! the result stays a descendant of the base directory whatever symbolic links,
//! absolute paths or `..` components the path or the file system hold. The crate
//! makes every decision of that walk and performs none of the system calls: it
//! hands each one out as a [`open::Request`], and takes its result back as a
//! [`open::Reply`]. The caller owns the file descriptors and the loop.
//!
//! The numbers that differ between systems (error numbers, open flags) are
//! taken from a [`host::Host`] table that the caller fills in.

pub mod constants;
pub mod dir;
pub mod error;
pub mod flags;
pub mod host;
pub mod inner;
pub mod laws;
pub mod open;
pub mod openat2;
pub mod ops;
pub mod path;
pub mod util;

pub use dir::BaseDir;
pub use error::Error;
pub use flags::LookupFlags;
pub use open::{open_file_secure, Reply, Request, Step, Walk};
pub use openat2::OpenHow;
pub use ops::{hardlink_secure, rename_secure, OpStep, Operation};
