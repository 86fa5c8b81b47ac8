//! A stable, per-machine identity: where the key files live, how they come
//! into being exactly once, and how the public half is read back.
//!
//! The library performs no file operation itself. It decides which operation
//! comes next and what follows from its outcome; the caller carries the
//! operations out. Everything it decides is verified.

pub mod error;
pub mod paths;
pub mod keys;
pub mod io;
pub mod ensure;
pub mod retrieve;
pub mod disk;
pub mod laws;
