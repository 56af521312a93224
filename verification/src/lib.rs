//! A moderation-guarded song catalog backed by an embedded SQLite store.
//!
//! The catalog keeps two tables — songs and albums — behind a single
//! connection that every operation uses exclusively. Mutating operations
//! sit behind a role-based authorization check that fails closed when the
//! caller carries no guild context.

pub mod auth;
pub mod catalog;
pub mod db;
pub mod errors;
pub mod model;
pub mod offload;
pub mod text;
