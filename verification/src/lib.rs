//! Finding a running process by its executable path and working on it through
//! one handle, written so that no call of the operating system is made here.
//!
//! Every operation is split where the platform comes in. The library says what
//! to ask ([`platform::Request`]), the caller asks it, and the library decides
//! from the answer ([`platform::Reply`]) what the operation gave. A search over
//! all processes is a [`scan::Scan`]: it is stepped once per answer until it
//! finishes with a [`process::Process`] or an [`error::NEXMemoryError`].
//!
//! [`host`] writes a platform down as a value and says what a whole search does
//! on it; [`laws`] holds what is proved of every step and of every search.

pub mod error;
pub mod text;
pub mod platform;
pub mod process;
pub mod scan;
pub mod host;
pub mod laws;
