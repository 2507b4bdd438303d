//! The ranking client's request paths.
//!
//! Both upstream calls are shaped alike: build a deterministic URL from the
//! request parameters, use it as the response-cache key, and on a miss let
//! the boundary code perform the HTTP call and populate the cache. The URL
//! construction is the deterministic part and is specified here character
//! by character; the transport lives outside the crate.

use vstd::prelude::*;
use vstd::string::StringExecFns;

use crate::text::{spec_u64_digits, u64_to_string};

verus! {

/// The leaderboard request URL (and cache key) for a mode: the base,
/// `/get_leaderboard?mode=`, the decimal mode, and a fixed entry limit.
pub open spec fn spec_leaderboard_url(base: Seq<char>, mode: u8) -> Seq<char> {
    base + "/get_leaderboard?mode="@ + spec_u64_digits(mode as nat) + "&limit=10"@
}

/// The per-player best-plays request URL (and cache key): the base,
/// `/get_player_scores?id=`, the decimal player id, the decimal mode, the
/// best-plays scope and a fixed entry limit.
pub open spec fn spec_player_scores_url(base: Seq<char>, player_id: u64, mode: u8) -> Seq<char> {
    base + "/get_player_scores?id="@ + spec_u64_digits(player_id as nat) + "&mode="@
        + spec_u64_digits(mode as nat) + "&scope=best&limit=10"@
}

/// Build the leaderboard request URL for a mode.
pub fn leaderboard_url(base: &str, mode: u8) -> (u: String)
    ensures
        u@ == spec_leaderboard_url(base@, mode),
{
    let mut u = base.to_owned();
    u.append("/get_leaderboard?mode=");
    let digits = u64_to_string(mode as u64);
    u.append(digits.as_str());
    u.append("&limit=10");
    u
}

/// Build the per-player best-plays request URL.
pub fn player_scores_url(base: &str, player_id: u64, mode: u8) -> (u: String)
    ensures
        u@ == spec_player_scores_url(base@, player_id, mode),
{
    let mut u = base.to_owned();
    u.append("/get_player_scores?id=");
    let id_digits = u64_to_string(player_id);
    u.append(id_digits.as_str());
    u.append("&mode=");
    let mode_digits = u64_to_string(mode as u64);
    u.append(mode_digits.as_str());
    u.append("&scope=best&limit=10");
    u
}

} // verus!
