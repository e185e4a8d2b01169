pub mod decimal;
pub mod laws;
pub mod registry;

pub use registry::{Contract, Content, Item, RegistryError};
