//! A release tool for a linearly versioned data schema: it freezes the
//! in-development version module as a new numbered module and resets the
//! in-development module's conversion code to the trivial baseline.
//!
//! The library holds the verified core: the structural analyzer over module
//! source text, the conversion-code synthesizer, the reset of a module's
//! conversions against a new predecessor, the manifest edits of a promotion,
//! and the relative-path computation between the two module trees.

pub mod analyze;
pub mod convert;
pub mod manifest;
pub mod model;
pub mod paths;
pub mod reset;
pub mod synth;
