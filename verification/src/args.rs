//! The command-line argument shapes, as plain values: the parser that fills
//! them lives with the binaries.

pub mod auth;
pub mod config;
pub mod generate;
pub mod mage;
pub mod repo;
pub mod samples;
pub mod self_record;
