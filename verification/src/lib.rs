//! Resolution of free-form text tokens to calendar months.
//!
//! The resolver tolerates case variation, surrounding whitespace,
//! abbreviations, ordinal suffixes, numeric indices, several international
//! spellings, and minor spelling errors, by running a fixed sequence of
//! matching strategies ending in a fuzzy edit-distance fallback.

mod distance;
mod error;
mod month;
mod resolver;
mod tables;
mod text;

pub use error::ValidationError;
pub use month::format_month;
pub use month::Month;
pub use resolver::parse_month;
pub use resolver::resolve_normalized;
