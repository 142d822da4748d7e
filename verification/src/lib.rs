//! A mock inventory service for SaaS application records, backed by a
//! single-table key-value store.
//!
//! The crate verifies the persistence contracts of the store (conditional
//! writes, atomic identifier issuance, scan-based listing), the catalog of
//! well-known applications, and the service rules built on top of them
//! (name uniqueness for custom records, merge-on-update semantics, and
//! substring search).

pub mod api_error;
pub mod apps_service;
pub mod laws;
pub mod models;
pub mod repository;
pub mod routes;
pub mod repository_errors;
pub mod text;
