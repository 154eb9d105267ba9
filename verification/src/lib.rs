//! Conversion of word-processing documents and spreadsheets to PDF and Markdown
//! through a neutral content model.

pub mod converter;
pub mod error;
pub mod text;
pub mod utils;
