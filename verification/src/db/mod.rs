//! The SQLite store: schema migrations and the queries of each table.

pub mod sql;
pub mod todo_table;
pub mod todo_queries;
pub mod tag_queries;
pub mod timing_queries;
pub mod session_queries;
pub mod setting_queries;
pub mod migrations;
pub mod analytics_queries;
