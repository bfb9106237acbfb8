//! Provisioning logic of the Tengu platform.

pub mod args;
pub mod cloud_init;
pub mod config;
pub mod encoding;
pub mod hetzner;
pub mod laws;
pub mod paths;
pub mod plan;
pub mod remote;
pub mod resolve;
pub mod steps;
pub mod tables;
pub mod template;
pub mod tengu_config;
pub mod text;
pub mod tunnel;
