//! A strongly typed model of documentation annotations and the macro-like
//! call forms that may appear inside them.
//!
//! The library classifies one annotation of a declaration into a closed set
//! of variants (a plain string literal, a text file-content call, an
//! `inline` marker, or an opaque leftover), extracts the payload of the
//! three supported call forms, and re-emits each classified value as
//! surface syntax that classifies back to an equal value.

pub mod doc;
pub mod inclusion;
pub mod string;
pub mod syntax;
pub mod utils;

pub use doc::DocAttribute;
pub use inclusion::{IOOrParseError, InclusionBytesMacro, InclusionMacro, InclusionStrMacro};
pub use string::StringifyMacro;
