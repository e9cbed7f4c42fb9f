//! A buildpack layer that counts builds.
//!
//! The layer keeps two counters in its metadata. A build that finds no usable
//! layer in the cache creates one with both counters at one; a build that
//! finds one adds one to each counter. Every function here works on plain
//! values: reading the cache, writing it back and printing are the caller's.

pub mod buildpack;
pub mod history;
pub mod layer;
pub mod metadata;
