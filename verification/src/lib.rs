//! Verified core of a tool that mirrors JIRA projects into local databases.
pub mod text;
pub mod sql;
pub mod saved_queries;
pub mod service;
pub mod config;
pub mod error;
pub mod time;
pub mod embeddings;
pub mod report;
pub mod expanded;
pub mod json;
pub mod jira;
pub mod jsonrpc;
pub mod mcp_config;
pub mod tools;
pub mod claude;
pub mod schema;
pub mod jira_records;
