pub mod config;
pub mod healthz;
