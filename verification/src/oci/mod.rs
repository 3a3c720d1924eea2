//! OCI (Open Container Initiative) image references, registries and credentials.

pub mod auth;
pub mod layer;
pub mod reference;
pub mod registry;
