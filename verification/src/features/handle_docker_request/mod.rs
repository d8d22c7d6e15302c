//! The Docker Registry V2 API: manifests and blobs read, written and
//! deleted under permission checks.

pub mod dto;
pub mod ports;
pub mod use_case;
pub mod adapter;
