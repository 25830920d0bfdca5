//! Cells written at most once, and values computed on first use.

pub mod lazy;
