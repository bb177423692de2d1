pub mod config_supplier;
pub mod config_supplier_init;
pub mod config_supply_chain;
pub mod config_supply_request;
pub mod config_supply_response;
pub mod supplier_model;
pub mod supplier_proofs;
pub mod token;
pub mod working_tree;
