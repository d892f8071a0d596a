//! Admission decisions for container images: a pod is admitted only when
//! every container image comes from a trusted registry.

pub mod document;
pub mod engine;
pub mod policy;
pub mod protocol;
