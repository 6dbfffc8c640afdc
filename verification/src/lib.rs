//! Core logic of Cycl, a pomodoro timer with todos: the timer state machine,
//! month arithmetic, the MCP request rules and the statistics aggregations.

pub mod text;
pub mod timer;
pub mod engine;
pub mod month;
pub mod category;
pub mod json;
pub mod protocol;
pub mod mcp;
pub mod server;
pub mod tools;
pub mod clock;
pub mod stats;
pub mod db;
pub mod model;
pub mod error;
pub mod view;
pub mod workflow;
