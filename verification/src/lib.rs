//! Verified core of a tool that moves archive case records ("units") from an
//! MS Access catalogue into an MS SQL Server archive database.
//!
//! The library holds everything the import decides or computes: how a line of
//! the fund/inventory list is read, how inventory and case numbers are split,
//! which SQL text and parameters each request carries, how replies are read,
//! how new unit records are built and numbered, which of them are new, and the
//! step function that drives one import run. Database and file access stay
//! with the caller.

pub mod clock;
pub mod config;
pub mod guid;
pub mod import;
pub mod models;
pub mod numbering;
pub mod sql;
pub mod text;
