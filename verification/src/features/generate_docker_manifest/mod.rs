//! Generation of Docker image manifests from the stored layers and
//! configuration of a tag, with a cache in front.

pub mod dto;
pub mod ports;
pub mod use_case;
pub mod adapter;
pub mod api;
