//! A print service for isolated processes.
//!
//! A process registers a read-only buffer, asks for it to be printed, and
//! may ask how many bytes it has had printed so far. Every process has a
//! storage record of its own in a grant table; the driver reaches a record
//! only by entering the table with the identity of the calling process.

pub mod driver;
pub mod error;
pub mod grant;
pub mod laws;
pub mod process;
pub mod processbuffer;
pub mod staging;
pub mod syscall;
