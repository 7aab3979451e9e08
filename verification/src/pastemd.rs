//! A lightweight paste store: its records, options and the rules its requests follow.
pub mod database;
pub mod model;
