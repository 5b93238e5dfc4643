//! Error numbers returned from Linux system calls.
//!
//! `Error` holds a number in `[1, 4095]`. On Linux the numbering is
//! architecture-specific: the modules under `arch` hold the constants of each
//! numbering, and `Arch` selects the numbering of a target, looks names up in
//! both directions and relates errors to the portable codes of `posix_errno`.

pub mod arch;
pub mod error;
pub mod posix;
pub mod table;

pub use crate::arch::Arch;
pub use crate::error::Error;
pub use crate::posix::{from_posix, posix_eq};
