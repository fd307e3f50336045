//! Classification of paired Hi-C read alignments against a set of
//! restriction-enzyme digestion fragments.
//!
//! The engine assigns each aligned read of a pair to the genomic restriction
//! fragment containing its resolved locus, derives the canonical orientation
//! of the pair, and classifies the pair as a self-circle, dangling end,
//! religation, valid interaction, or filtered record, together with a
//! category-specific size metric.

pub mod model;
pub mod locus;
pub mod index;
pub mod assign;
pub mod classify;
pub mod metrics;
