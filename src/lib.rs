//! Fixed-precision embedding vectors and the policies that govern comparing them.
//!
//! Components are carried as their IEEE-754 single-precision encodings, and
//! similarity scores as double-precision encodings, so that every rule of the
//! library (validation, dimension agreement, the zero-vector conventions, the
//! mandatory clamp of similarity scores, atomic in-place updates) is stated and
//! proved over plain integers. The floating-point arithmetic itself is done by
//! the host layer and handed in.
pub mod embedding;
pub mod error;
pub mod ieee;
