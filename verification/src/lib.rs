//! A disk burn-in and data-integrity engine.
//!
//! The library writes a seed-reproducible pseudorandom byte stream across a
//! backing store and later re-derives the identical stream from the seed to
//! compare it against what is read back; any diverging chunk is evidence of
//! media corruption.  The keystream generator, the bounded write pipeline and
//! the read-back verifier live here, verified; device discovery, command-line
//! handling and the asynchronous I/O plumbing are left to the binary around
//! the library.

pub mod crypto;
pub mod device;
pub mod metadata;
pub mod session;
pub mod store;
