//! Non-blocking byte streams under a poll-based scheduler.
//!
//! A stream never blocks. Each operation is one attempt: it completes with a
//! value, completes with a failure, or reports that it is not ready and
//! leaves it to the caller to try again once the waker in the scheduling
//! context has fired. [`AsyncRead`] and [`AsyncWrite`] state that protocol,
//! and [`Compat`] carries a stream across to code that expects failures in
//! the shape of `std::io::Error`.

pub mod compat;
pub mod cursor;
pub mod pinned;
pub mod read;
pub mod task;
pub mod write;

pub use compat::Compat;
pub use read::AsyncRead;
pub use write::AsyncWrite;
