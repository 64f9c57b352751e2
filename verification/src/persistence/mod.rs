//! The shape in which records are stored, and the way to and from it.

pub mod models;
