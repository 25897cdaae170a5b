//! The decisions of a small file copy utility, and a binary number printer.
//!
//! A run copies one or more sources to a destination. The library decides
//! what is done and in which order, and says what is logged; it asks for
//! each look at the file system and for each copy as an [`executor::Action`]
//! and is told the outcome as an [`executor::Event`].

pub mod bits;
pub mod destination;
pub mod error;
pub mod executor;
pub mod invocation;
pub mod journal;
pub mod laws;
pub mod paths;
pub mod text;
