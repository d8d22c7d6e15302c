//! Artifact distribution logic: metadata generation for Maven, npm and Docker
//! registries, and the request rules of the Docker Registry V2 and Maven
//! repository protocols.

pub mod clock;
pub mod digest;
pub mod domain;
pub mod json;
pub mod text;
pub mod features;
