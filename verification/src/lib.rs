//! Reconciliation core of an operator that keeps an nginx-backed workload in
//! step with a `WazuhCluster` resource.
//!
//! The library decides; it performs no request itself. A reconciliation is a
//! small state machine: it hands out one [`api::Request`] at a time and is
//! resumed with the reply. The module [`model`] describes how an API server
//! answers those requests and states what a whole reconciliation achieves.

pub mod labels;
pub mod resources;
pub mod errors;
pub mod api;
pub mod action;
pub mod finalizer;
pub mod nginx_deployment;
pub mod reconcile;
pub mod model;
