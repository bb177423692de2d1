//! Configuration delivery: given a stage, an environment and a component, the service
//! hands out an archive of the component's configuration files.
//!
//! This library holds what the service decides, and proves it. A supply chain
//! ([`models::config_supply_chain`]) routes each request to a pool of suppliers; a
//! supplier ([`models::config_supplier`]) keeps one working directory up to date with
//! a stage and serves requests from it, one at a time. Neither touches a file, a
//! channel or the network: each says what is to be done next and is told what came of
//! it. The services ([`services`]) hold what the downloader, the builder and the
//! packager decide between their own calls to the outside, and the controllers
//! ([`controllers`]) what the service answers over HTTP.

pub mod controllers;
pub mod error;
pub mod error_kind;
pub mod models;
pub mod services;
pub mod settings;
pub mod text;
pub mod timeouts;
