//! Persistence layer of a small task manager: tasks, a singleton settings
//! record and calendar presets, kept in one SQLite file.
//!
//! - [`database`] is the store and its operations, [`migrate`] the repair
//!   pass that runs at startup.
//! - [`records`] holds the records, [`error`] the failures.
//! - [`update`] turns a partial update into a plan, [`statement`] builds
//!   every statement that the engine is handed, [`schema`] those that set a
//!   store up, and [`rows`] reads what comes back.
//! - [`status`] and [`text`] hold the rules on statuses.
//! - [`tables`] says in mathematics what the statements ask for, and
//!   [`laws`] proves what follows from it.
//! - [`engine`] is the boundary to `rusqlite`, and [`value`] the plain
//!   values that cross it.

pub mod database;
pub mod engine;
pub mod error;
pub mod laws;
pub mod migrate;
pub mod records;
pub mod rows;
pub mod schema;
pub mod statement;
pub mod status;
pub mod tables;
pub mod text;
pub mod update;
pub mod value;
