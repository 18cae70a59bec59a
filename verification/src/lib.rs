//! Verified core of an SQLite connection layer: the decoding of authorizer
//! and trace callbacks, resource limits, `sqlite3_db_config` options, the
//! SQL text of pragmas and maintenance statements, blob cursors, serialized
//! databases, owned rows and bind collections.

pub mod app_defined_fn;
pub mod authorizer;
pub mod auto_extension;
pub mod backend;
pub mod blob;
pub mod bind_collector;
pub mod codes;
pub mod connection;
pub mod db_config;
pub mod error;
pub mod extensions;
pub mod functions;
pub mod hooks;
pub mod limits;
pub mod nodes;
pub mod pragmas;
pub mod row;
pub mod serialized_database;
pub mod serialized_value;
pub mod sql;
pub mod statement_iterator;
pub mod stmt;
pub mod trace;

pub use authorizer::{AuthorizerContext, AuthorizerDecision};
