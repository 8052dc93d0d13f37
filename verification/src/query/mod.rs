//! Statements that query or change data.

pub mod order;
pub mod select;
pub mod window;
