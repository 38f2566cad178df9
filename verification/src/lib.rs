//! Verified core of the tassle toolkit: mage pattern-quintessence accounting,
//! the listener's dispatch and verb state machines, record-shape inspection,
//! and the configuration rules the services bootstrap from.

pub mod text;
pub mod quint;
pub mod engine;
pub mod json;
pub mod phase;
pub mod repo;
pub mod enervate;
pub mod chat_enervate;
pub mod mage;
pub mod stats;
pub mod quint_jac;
pub mod repo_mage;
pub mod config;
pub mod tailscale;
pub mod spacedust;
pub mod slingshot;
pub mod listen;
pub mod web_auth;
pub mod cli;
pub mod output;
pub mod profiles;
pub mod lexicons;
pub mod args;
pub mod generate;
pub mod ledger;
pub mod report;
pub mod samples;
