//! Software supply chain exporter: inventories scan targets (container
//! images and host directories), resolves a software bill of materials
//! (SBOM) for each through a disk-backed cache, checks each SBOM against
//! vulnerability databases, and flattens the correlated results into
//! label-keyed counter metrics.
//!
//! This crate holds the verified core: target identity and deduplication,
//! cache-path derivation, the per-source resolution decisions, partial
//! failure isolation, cache-eviction policy, and the metrics aggregation
//! with its label-derivation and fallback rules. Talking to the container
//! runtime, spawning the generator and scanner subprocesses, and reading
//! and writing files are left to the surrounding binary.

pub mod config;
pub mod distinct;
pub mod janitor;
pub mod registry;
pub mod pipeline;
pub mod sbom;
pub mod scan;
pub mod metrics;
