//! Staging of encoded documents into a local working area, and relaying of
//! questions about them to a remote answering service.
//!
//! The library decides everything that can be decided from plain values: how a
//! payload decodes, whether a file name is safe, where a file lands, what JSON
//! body goes out, and how each outcome of the outside world is reported. The
//! host application performs the filesystem and network work itself.
pub mod error;
pub mod relay;
pub mod staging;
