//! A small clipboard-watching library: an append-only history of observed
//! clipboard text in which consecutive duplicates are never stored, a
//! single-value variant that keeps only the last observed text, and an
//! accessor for the pointer position that swallows query failures.

pub mod cursor;
pub mod history;
pub mod state;
