//! Resolution of exports of genuine system libraries by absolute path.
//!
//! A proxy library that stands in for a system library forwards each call
//! to the genuine one in the system directory. The decisions of that
//! resolution live here, as verified steps: the platform's answers (the
//! system directory, whether a library loaded, whether an export was found)
//! come in as plain values, and each step says what to do next.
pub mod failure;
pub mod forward;
pub mod resolver;
pub mod laws;
