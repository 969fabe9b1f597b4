//! A gateway core over a hierarchical scientific-data catalog: decoding of the
//! catalog's JSON documents into a typed node model, the per-session and
//! per-run aggregation, the projection of datasets into downloadable entries,
//! and the decisions of the single-asset download proxy.

pub mod backend;
pub mod cli;
pub mod data;
pub mod json;
pub mod node;
pub mod proxy;
pub mod run;
pub mod session;
pub mod text;
pub mod walker;
