//! Streams an HTTP resource to a file or to an in-memory consumer while
//! reporting progress through a caller-supplied sink.
//!
//! The decision logic of a download — classifying transport faults, reading
//! the declared total size from the response, sequencing file writes and
//! progress notifications — lives here, verified. The runner that performs
//! the actual network and filesystem work drives a [`session::Session`]
//! through its events.

pub mod downloader;
pub mod error;
pub mod session;
