//! The resolved configuration of each pipeline domain.

pub mod checks;
