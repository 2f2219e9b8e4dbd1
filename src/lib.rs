//! Process control: a builder for process descriptions, the decisions taken
//! around a spawned child's lifecycle, shared access to its piped standard
//! streams, and the results of a run to completion.
pub mod error;
pub mod status;
pub mod policy;
pub mod command;
pub mod child;
