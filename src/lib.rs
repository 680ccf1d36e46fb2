//! Build-and-deploy orchestration for multi-component products: manifest
//! loading with variable substitution, image identity and port discovery,
//! service tables, launch ordering and the live-development supervisor's
//! decisions.
pub mod text;
pub mod yaml;
pub mod variables;
pub mod platform;
pub mod render;
pub mod config;
pub mod build_type;
pub mod fields;
pub mod service;
pub mod component;
pub mod toolchain;
pub mod context;
pub mod artefact;
pub mod image;
pub mod cluster;
pub mod ordering;
pub mod reactor;
pub mod supervisor;
pub mod sort;
pub mod runner;
pub mod api;
pub mod commands;
pub mod laws;
pub mod gitignore;
