//! Core of a markdown-agent runner: the per-input task pipeline that
//! sequences script evaluation, prompt rendering, chat invocation, usage
//! and cost accounting, and output post-processing, together with the
//! supporting data model (configuration, pricing, values, records).
#![verifier::loop_isolation(false)]
pub mod agent;
pub mod assets;
pub mod config;
pub mod flow;
pub mod num;
pub mod paths;
pub mod pricing;
pub mod report;
pub mod signal;
pub mod store;
pub mod text;
pub mod ui;
pub mod value;
