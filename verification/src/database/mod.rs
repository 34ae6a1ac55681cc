//! Decisions around the `amrs` table.
pub mod connection;
pub mod options;
pub mod queries;
