//! AI Usage: local AI coding agent usage cost summaries.

pub mod money;
pub mod time;
pub mod text;
pub mod json;
pub mod session;
pub mod token_usage;
pub mod paths;
pub mod session_files;
pub mod opencode_database;
pub mod session_reading;
pub mod price_catalog;
pub mod cost;
pub mod arrangement;
pub mod usage_source;
pub mod reporting_period;
pub mod terminal_interface;
pub mod output;
pub mod application;
