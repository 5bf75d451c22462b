//! Generation-time pipeline for a character encoding of an enumerated type.
//!
//! A type description arrives as a name plus an ordered list of variants,
//! each with zero or more metadata entries; a recognized entry carries the
//! variant's tag, a single character. The pipeline extracts a descriptor per
//! variant, validates that no two variants share a tag, classifies the type
//! as Total (every variant tagged) or Partial, and synthesizes the four
//! conversion capabilities: char to value, value to char, textual parse, and
//! display. Any failure along the way becomes a diagnostic and nothing is
//! emitted.

pub mod codec;
pub mod descriptor;
pub mod errors;
pub mod extract;
pub mod laws;
pub mod validate;
