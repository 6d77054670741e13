//! Keeps a list of local git clones and fast-forwards selected ones from their `origin`.
//!
//! The crate holds the rules and leaves every side effect to its caller:
//!
//! - [`project`]: the record of one registered project;
//! - [`store`]: the ordered collection of records, with validated registration and deletion;
//! - [`selection`]: naming positions of the collection by index or by flag;
//! - [`outcome`]: how one synchronization attempt can end, and its log line;
//! - [`engine`]: the step-by-step synchronization of a batch of projects;
//! - [`log`]: the capped log that every error and outcome goes to;
//! - [`manager`]: the operations that a front end calls.
//!
//! A caller opens repositories, talks to remotes and reads and writes the project list; it
//! tells the crate what it found and is told what to do next.

pub mod engine;
pub mod log;
pub mod manager;
pub mod outcome;
pub mod project;
pub mod selection;
pub mod store;
