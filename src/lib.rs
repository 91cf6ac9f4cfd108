//! The lines that a short tour of Rust's pointer, union and enum constructs
//! prints, computed and proved in safe code.
pub mod decimal;
pub mod scenarios;
