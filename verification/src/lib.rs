//! The socket layer of a completion-based asynchronous I/O runtime, as a
//! core without I/O of its own.
//!
//! A caller moves a buffer (or the handle itself) into an [`op::Operation`],
//! the surrounding runtime submits the request to the operating system, and
//! the completion hands the outcome and the moved-in resource back. This
//! crate holds every decision of that protocol; performing the system calls
//! is left to the program around it.

pub mod addr;
pub mod buf;
pub mod completion;
pub mod error;
pub mod laws;
pub mod op;
pub mod platform;
pub mod socket;
