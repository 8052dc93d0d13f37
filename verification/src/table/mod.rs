//! Statements on tables.

pub mod ops;
