//! Generation of `maven-metadata.xml` documents for Maven artifacts, with a
//! cache in front.

pub mod dto;
pub mod ports;
pub mod use_case;
pub mod adapter;
pub mod api;
