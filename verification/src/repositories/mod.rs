//! Where records are kept.

pub mod in_memory;
pub mod sensor_repository;

pub use in_memory::InMemorySensorRepository;
pub use sensor_repository::{SensorRepository, StorageError};
