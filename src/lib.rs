//! Scan engine for finding the origin server behind a content-delivery
//! network: probe decisions, line splitting, favicon digests, launch pacing
//! and progress accounting. Network and file I/O live outside this library.

pub mod digest;
pub mod lines;
pub mod probe;
pub mod sink;
pub mod progress;
pub mod launch;
