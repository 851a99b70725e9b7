//! Building indexable containers by applying a generator to each index.
//!
//! A container that implements [`Init`] is produced whole from a function of
//! its indices: the element type needs neither a default value nor `Copy`.
//! Fixed-size arrays of one to six dimensions take no further input; a `Vec`
//! takes its length.
pub mod array;
pub mod grid;
pub mod init;
pub mod sequence;
mod type_equals;

pub use crate::init::Init;
