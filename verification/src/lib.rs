//! Written English forms of integers.
//!
//! Every fixed-width integer has a cardinal form ("one hundred
//! twenty-seven") and an ordinal form ("one hundred twenty-seventh"). Both
//! come from one decomposition of the magnitude into groups of three
//! decimal digits, each rendered with a scale word (thousand, million,
//! ...), with a "minus " prefix for negative values. The expected text of
//! each form is a specification over sequences of characters, and every
//! formatter is proved to return exactly that text.

pub mod cardinal;
pub mod laws;
pub mod ordinal;
pub mod text;
pub mod words;

pub use cardinal::Cardinal;
pub use cardinal::cardinal_int;
pub use cardinal::compose_cardinal_int;
pub use cardinal::push_doublet;
pub use cardinal::push_triplet;
pub use ordinal::Ordinal;
pub use ordinal::compose_ordinal_int;
pub use ordinal::ordinal_int;
pub use ordinal::push_doublet_ordinal;
pub use ordinal::push_triplet_ordinal;
