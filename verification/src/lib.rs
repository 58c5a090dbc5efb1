//! Crawl-and-cache pipeline for a paginated character catalog.
//!
//! The library holds the verified core of the pipeline: the data model,
//! the filter criteria and form-parameter construction, the progress
//! tracker, the listing collection and parsing logic, the per-item
//! cache/fetch decisions, and the persistent cache around SQLite.
//! Network transport and markup extraction live outside the library and
//! hand it plain values.

pub mod errors;
pub mod utils;
pub mod request;
pub mod fetcher;
pub mod populate;
pub mod database;
pub mod pages;
pub mod sorting;
