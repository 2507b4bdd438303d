//! Verified core of a performance-score recalculation pipeline.
//!
//! The library aggregates competitive-ranking data: a time-bounded response
//! cache memoizes upstream API answers, an artifact store keeps immutable
//! beatmap files keyed by numeric id, and a calculation dispatcher resolves a
//! `(version, branch)` pair to one of twelve scoring strategies, then rounds
//! and sanitizes the numeric results.
//!
//! All numeric metrics are fixed-point values (see [`metric`]): the external
//! scoring engines work in floating point, which stays outside this crate.
//! Network and file I/O likewise stay outside; the functions here take the
//! outcomes of those effects as arguments and are verified for every outcome.

pub mod beatmap;
pub mod cache;
pub mod calculate;
pub mod client;
pub mod metric;
pub mod models;
pub mod pipeline;
pub mod text;
