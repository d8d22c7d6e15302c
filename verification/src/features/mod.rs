//! The features of the distribution service, one module each.

pub mod generate_docker_manifest;
pub mod generate_maven_metadata;
pub mod generate_npm_metadata;
pub mod handle_docker_request;
pub mod handle_maven_request;
