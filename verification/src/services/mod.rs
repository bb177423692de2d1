pub mod git_downloader;
pub mod microconfig_config_builder;
pub mod zip_packager;
