//! Indentation-aware rendering of values into human-readable text.

pub mod error;
pub mod styles;
pub mod text;
pub mod stringify;
pub mod primitives;
pub mod containers;
pub mod maps;
pub mod laws;

pub use crate::error::StringifyError;
pub use crate::styles::{Newline, Style, Styles};
pub use crate::stringify::Stringify;
