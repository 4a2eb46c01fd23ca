//! Oracle Database driver plugin for Tabularis: the verified core.
//!
//! This library holds the decisions of the plugin: how SQL text is classified
//! and prepared, how identifiers and literals are quoted, how DDL and DML
//! statements are generated from the host's JSON requests, how catalog rows
//! are shaped into the host's models, and how JSON-RPC responses look. The
//! program around it (stdio loop, Oracle sessions, JSON text) lives in `app/`.
pub mod text;
pub mod json;
pub mod utils;
pub mod error;
pub mod models;
pub mod client;
pub mod rpc;
pub mod handlers;
pub mod settings;
