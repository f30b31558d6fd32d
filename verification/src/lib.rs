//! Managing Kubernetes client configuration documents: importing one
//! document into another, deleting and renaming contexts, cleaning up the
//! clusters and users that no context refers to, exporting contexts.
//!
//! A document holds three collections of named entries (clusters, users and
//! contexts) and the name of the context that is currently selected. The
//! operations work on documents in memory; reading and writing files is left
//! to the caller.

pub mod commands;
pub mod config;
pub mod entries;
pub mod name_map;
pub mod naming;
pub mod test_utils;
pub mod text;
