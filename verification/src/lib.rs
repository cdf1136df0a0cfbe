//! Classroom assessment engine: exam aggregates with structural validation,
//! a temporal policy gating every operation on an exam's start/end window,
//! an in-memory relational store with atomic multi-entity writes, idempotent
//! answer submission, and result scoring.

pub mod account;
pub mod clock;
pub mod errors;
pub mod ids;
pub mod laws;
pub mod lifecycle;
pub mod lists;
pub mod model;
pub mod params;
pub mod policy;
pub mod scoring;
pub mod store;
pub mod strutil;
pub mod submission;
pub mod validate;
