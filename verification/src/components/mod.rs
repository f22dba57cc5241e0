//! Helpers for particular kinds of element.

pub mod scan;
pub mod select;
