//! Build-time directive generator: renders an ordered catalog of coding
//! guidelines into a block of lint-configuration directives for splicing
//! at the root of a compilation unit.

pub mod catalog;
pub mod emitter;
pub mod laws;
pub mod registry;
