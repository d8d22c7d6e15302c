//! Generation of npm package metadata documents from the stored package
//! information, with a cache in front.

pub mod dto;
pub mod ports;
pub mod use_case;
pub mod adapter;
