//! Elowen edge runtime: the rules of a trusted device that runs dispatched jobs.

pub mod approval;
pub mod codex;
pub mod command;
pub mod config;
pub mod contracts;
pub mod crypto;
pub mod discovery;
pub mod encoding;
pub mod env_import;
pub mod error;
pub mod execution;
pub mod finish;
pub mod job;
pub mod json;
pub mod paths;
pub mod registration;
pub mod runtime;
pub mod sandbox;
pub mod service;
pub mod standalone;
pub mod standalone_job;
pub mod status;
pub mod text;
pub mod timestamp;
pub mod tui;
pub mod validation;
pub mod volumes;
pub mod workspace;
