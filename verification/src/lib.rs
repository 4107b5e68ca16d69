//! Extraction-and-orchestration pipeline for "latest news" listing pages.
//!
//! Raw markup for each configured newspaper is parsed and queried with
//! declarative per-site rules, candidate items are deduplicated within a
//! pass, and the per-source results are joined into one mapping.

pub mod dedup;
pub mod extract;
pub mod markup;
pub mod model;
pub mod pipeline;
pub mod render;
pub mod sources;
pub mod text;
