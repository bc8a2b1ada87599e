//! Core logic for bisecting a regression across pre-built compiler
//! toolchains: a ternary bisection engine, an outcome classifier, a
//! stride-based nightly scanner, bound validation, and the two-phase
//! orchestration that ties them together. All decisions are made by
//! verified functions over plain values; installing toolchains, running
//! probes and talking to a repository are left to the caller, who feeds
//! the observed results back in as events.

pub mod bounds;
pub mod dates;
pub mod errors;
pub mod least_satisfying;
pub mod orchestrate;
pub mod outcome;
pub mod report;
pub mod scanner;
pub mod text;
pub mod toolchains;
pub mod validate;
