//! A declarative browser-automation runner: workflow documents of named
//! jobs, each a list of instructions (`@loc`, `@send`, `@click`, `@loop`,
//! `@end`), parsed and run against a browser one instruction at a time.
//!
//! - `instruction`: the grammar of one line and its parser.
//! - `command`: the plain `@loc` / `@set` / `@click` command form.
//! - `job`: jobs and the workflow document.
//! - `document`: the document's raw records and their conversion to jobs.
//! - `yaml`: reading the records from YAML text.
//! - `engine`: the state machine that runs one job.
//! - `session`: which job runs next, and closing the browser once.

pub mod text;
pub mod instruction;
pub mod command;
pub mod job;
pub mod document;
pub mod yaml;
pub mod engine;
pub mod session;
