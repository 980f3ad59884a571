//! Verified core of a typed client for a Kubernetes-style REST API.
//!
//! The crate decides; it does not send. Given the base URL of a cluster it
//! forms, for each operation, the one request to send, and it turns the
//! response into the result: routes that tell namespaced kinds from
//! cluster-scoped ones, the registry of kinds, the reading of status
//! objects and list envelopes, the plan of a transport's identity, and the
//! create-if-absent application of manifests. The contracts of these
//! functions are proved; sending requests, reading files and building the
//! TLS transport are left to the program around the crate.

pub mod clients;
pub mod encoding;
pub mod errors;
pub mod json;
pub mod location;
pub mod prelude;
pub mod resources;
pub mod text;

pub use clients::Kubernetes;
pub use errors::Error;
