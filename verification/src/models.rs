//! Data model of the recalculation pipeline.
//!
//! These are the typed payloads of the upstream ranking service and the
//! record the pipeline reports per play. Metrics that the upstream service
//! and the scoring engines express in floating point are carried here as
//! fixed-point integers (see [`crate::metric`]): raw inputs in
//! ten-thousandths, reported results in hundredths. The boundary code that
//! talks JSON converts at the edge.

use vstd::prelude::*;

verus! {

/// Reference to the beatmap a play was made on.
#[derive(Clone, Debug)]
pub struct BeatmapInfo {
    pub id: u64,
    pub md5: String,
}

/// One submitted play: hit statistics, applied mods, and the optional
/// cheat-detection scalars some calculation branches forward to the engine.
/// `pp`, `acc`, `aim_value` and `ar_value` are raw fixed-point values in
/// ten-thousandths.
#[derive(Clone, Debug)]
pub struct PlayerScore {
    pub score: u64,
    pub pp: i64,
    pub acc: i64,
    pub max_combo: usize,
    pub mods: u32,
    pub n300: usize,
    pub n100: usize,
    pub n50: usize,
    pub nmiss: usize,
    pub beatmap: BeatmapInfo,
    pub aim_value: i64,
    pub ar_value: i64,
    pub twval: u64,
    pub hdr: u32,
    pub cs: u32,
}

/// One row of the leaderboard; `pp` is a raw fixed-point value in
/// ten-thousandths.
#[derive(Clone, Debug)]
pub struct LeaderboardEntry {
    pub player_id: u64,
    pub name: String,
    pub pp: i64,
}

/// Envelope of the upstream leaderboard endpoint.
#[derive(Clone, Debug)]
pub struct LeaderboardResponse {
    pub status: String,
    pub leaderboard: Vec<LeaderboardEntry>,
}

/// Envelope of the upstream per-player best-plays endpoint.
#[derive(Clone, Debug)]
pub struct ScoresResponse {
    pub status: String,
    pub scores: Vec<PlayerScore>,
}

/// The pipeline's verdict on one play. All metric fields are reported in
/// hundredths; `difference` is computed from the sanitized recalculated
/// value. `version` tags the scoring ruleset (0, 1 or 2) — the branch a
/// strategy was resolved under is deliberately not encoded.
#[derive(Clone, Copy, PartialEq, Eq, Structural, Debug)]
pub struct PPCalculationResult {
    pub beatmap_id: u64,
    pub original_pp: i64,
    pub recalculated_pp: i64,
    pub difference: i64,
    pub stars: i64,
    pub mods: u32,
    pub version: u8,
}

} // verus!
