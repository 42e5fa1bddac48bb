//! Movie-database search core: provider descriptors, response
//! normalization, and the clipboard-oriented output formatter.

pub mod db;
pub mod error;
pub mod movie;
pub mod style;
pub mod text;

pub use error::Error;
pub use movie::Movie;
pub use style::Style;
