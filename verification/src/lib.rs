//! Verified core of a macOS folder-icon generator.
//!
//! The library builds the exact argument sequences handed to an external
//! image-processing backend: canonical string encodings for geometry values,
//! an ordered compositing-argument builder, the fixed per-resolution constant
//! table, and the per-resolution engraving pipeline expressed as a plan of
//! subprocess invocations. A thin unverified shell runs the subprocesses.

pub mod command;
pub mod convert;
pub mod error;
pub mod icon_conversion;
pub mod options;
pub mod primitives;
pub mod resources;
pub mod strutil;
