//! Verified core of an operator that copies container images between
//! registries, driven by `ImageSync` custom resources.
//!
//! - `imagesync`, `config`: the custom resource and the operator settings.
//! - `naming`, `script`, `workload`, `jobs`, `cronjobs`: the Jobs and
//!   CronJobs that run skopeo, how they are named, built, read and compared.
//! - `pattern`, `reconciler`: acceptance checks and status updates.
//! - `controller`: the reconcile pass as a state machine, with its laws.
//! - `text`, `error`: string helpers and the error type.

pub mod config;
pub mod controller;
pub mod cronjobs;
pub mod error;
pub mod imagesync;
pub mod jobs;
pub mod naming;
pub mod pattern;
pub mod reconciler;
pub mod script;
pub mod text;
pub mod workload;
