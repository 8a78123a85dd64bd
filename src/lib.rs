//! Whitespace normalisation of text: newlines become spaces, every run of
//! whitespace becomes one space, and whitespace at both ends is removed.

mod calls;
pub mod laws;
pub mod model;
pub mod refine;

pub use refine::{collapse_whitespace, refine_text, replace_newlines, trim_whitespace};
