//! Maven repository requests: reading, uploading and probing artifacts
//! under repository policies and permission checks.

pub mod dto;
pub mod ports;
pub mod use_case;
