//! Identifies the language and script of a short text by comparing the ranking of
//! its character trigrams with reference profiles.

pub mod confidence;
pub mod detect;
pub mod distance;
pub mod filter_list;
pub mod lang;
pub mod script;
pub mod text;
pub mod trigram;
