//! The main client and the traits of the typed clients.

pub use crate::clients::resource_clients::{ListClient, ReadClient, WriteClient};
pub use crate::clients::Kubernetes;
