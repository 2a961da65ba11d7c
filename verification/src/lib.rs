//! Migration-file export for database schema objects, and a buffer that
//! renders tabular query results as wiki markup.

pub mod config;
pub mod ddl;
pub mod export;
pub mod flyway;
pub mod naming;
pub mod pattern;
pub mod plsqldev_api;
pub mod repeatable;
pub mod string_utils;
pub mod text;
pub mod timestamp;
pub mod versioned;
