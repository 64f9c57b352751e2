//! Validated readings of environmental sensors.
//!
//! A reading is checked when it is built: the device must be named, the
//! timestamp must not lie in the future and the value must lie within the
//! bounds of its kind. Everything here is stated over mathematical models and
//! proved against them.

pub mod double;
pub mod entities;
pub mod persistence;
pub mod repositories;
pub mod sensors;
pub mod text;
pub mod time;
