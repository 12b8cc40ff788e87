//! Access-control policy engine for a local execution daemon.
//!
//! The crate decides whether a filesystem path may be touched and whether a
//! command may be run, from an immutable set of rules built once from the
//! configuration. Every decision function carries a contract that states its
//! verdict over a mathematical model of the rules.
//!
//! - `security` holds the rule store and the decisions.
//! - `paths` resolves paths and names the lexical path operations.
//! - `content` normalizes file content before it is written.
//! - `config` holds the defaults and the validation of a configuration.
//! - `dispatch` holds what the request handlers decide around each operation.
//! - `models` holds the plain data of configuration, requests and replies.
//! - `text` holds the character-level helpers the others are built on.

pub mod config;
pub mod content;
pub mod dispatch;
pub mod models;
pub mod paths;
pub mod security;
pub mod text;
