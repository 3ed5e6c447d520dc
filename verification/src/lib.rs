//! Dependency due-diligence: resolves the transitive dependencies of a package
//! manifest, attaches repository health signals to each resolved package and
//! collects the funding pages that the repositories declare.

pub mod endpoints;
pub mod enricher;
pub mod executor;
pub mod extractor;
pub mod funding;
pub mod graph;
pub mod job;
pub mod package;
pub mod pipeline;
pub mod report;
pub mod repository;
pub mod resolver;
pub mod table;
pub mod text;
