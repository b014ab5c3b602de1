//! Transliteration of Qazaq text from Cyrillic to Latin script.
pub mod alphabet;
pub mod harmony;
pub mod converter;

pub use converter::convert;
