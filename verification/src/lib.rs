//! Commit-report synthesis and secure configuration storage.
//!
//! The crate aggregates commit records from several repositories into a
//! templated prompt, drives the streaming generation of a report from that
//! prompt, and keeps provider credentials encrypted at rest.

pub mod error;
pub mod models;
pub mod services;
