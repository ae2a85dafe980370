//! A minimal static-content HTTP server core with name-based virtual hosting.
//!
//! The library holds the verified request-handling pipeline: request parsing,
//! virtual-host resolution, path resolution within a document root, and
//! response framing. Network and filesystem I/O live outside the library;
//! callers hand in the bytes read from a connection and the outcome of each
//! file read, and get back the next action to perform.

pub mod bytes;
pub mod handler;
pub mod paths;
pub mod request;
pub mod response;
pub mod vhost;

