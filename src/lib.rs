//! Client library for a facility-monitoring REST API: the record model, the packed
//! value-mapping codec, the per-row create/update classifier, endpoint paths and the
//! output decisions.
pub mod cli;
pub mod display;
pub mod endpoints;
pub mod errors;
pub mod export;
pub mod mapping;
pub mod output;
pub mod reconcile;
pub mod records;
pub mod sensors;
pub mod text;
