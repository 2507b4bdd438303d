//! The calculation dispatcher.
//!
//! A calculation strategy is chosen along two independent axes: the
//! *version* picks the scoring ruleset (vanilla, relax, or score-v2) and the
//! *branch* picks the adjustment profile (live build, main build with cheat
//! adjustment, main build without it, or the legit-verification build). The
//! cross product gives the twelve strategies of [`PPCalculationType`].
//!
//! The strategies differ only in which engine build is invoked, whether the
//! cheat-detection scalars of a play are forwarded, and — for the score-v2
//! ruleset — whether the relax modifier bit is OR-ed into the effective mod
//! bitset. All of that is decided here, in verified code; the engine
//! invocation itself works in floating point and runs outside the crate,
//! handing its outcome back as an [`EngineOutcome`].

use vstd::prelude::*;

use crate::metric::{RawMetric, spec_round_cents, spec_final_cents, round_cents, round_and_sanitize};
use crate::models::{PlayerScore, PPCalculationResult};
use crate::pipeline::PipelineError;

verus! {

/// The relax modifier: OR-ed into the effective mods when a score-v2
/// strategy is resolved with the relax flag set.
pub const RELAX_MOD: u32 = 1u32 << 7;

/// The twelve calculation strategies: three rulesets crossed with four
/// adjustment branches. `relax` on the score-v2 variants records whether
/// the relax modifier is folded into the effective mods.
#[derive(Clone, Copy, PartialEq, Eq, Structural, Debug)]
pub enum PPCalculationType {
    VanillaNoCV,
    RelaxNoCV,
    ScoreV2NoCV { relax: bool },
    VanillaCheats,
    RelaxCheats,
    ScoreV2Cheats { relax: bool },
    VanillaLegit,
    RelaxLegit,
    ScoreV2Legit { relax: bool },
    VanillaCheatsLive,
    RelaxCheatsLive,
    ScoreV2CheatsLive { relax: bool },
}

/// Which engine build a strategy invokes.
#[derive(Clone, Copy, PartialEq, Eq, Structural, Debug)]
pub enum EngineBuild {
    Main,
    Legit,
    Live,
}

/// The cheat-detection scalars a strategy forwards to the engine, if any.
/// The vanilla ruleset forwards aim, approach-rate and a hidden-removal
/// flag; the relax ruleset forwards aim, approach-rate, a timewarp value
/// and a circle-size flag; the score-v2 ruleset forwards none.
#[derive(Clone, Copy, PartialEq, Eq, Structural, Debug)]
pub enum CheatInputs {
    NotForwarded,
    AimAr { aim: i64, ar: i64, hdr: bool },
    AimArTimewarp { aim: i64, ar: i64, tw: u64, cs: bool },
}

/// Everything a scoring engine needs for one play, as plain values: the
/// record of named parameters handed once to the (external) engine call.
/// `acc`, and the scalars inside `cheat`, are raw fixed-point values in
/// ten-thousandths.
#[derive(Clone, Copy, PartialEq, Eq, Structural, Debug)]
pub struct EngineRequest {
    pub engine: EngineBuild,
    pub ruleset: u8,
    pub mods: u32,
    pub combo: usize,
    pub acc: i64,
    pub n300: usize,
    pub n100: usize,
    pub n50: usize,
    pub nmiss: usize,
    pub cheat: CheatInputs,
}

/// The raw pair a scoring engine hands back for one play.
#[derive(Clone, Copy, PartialEq, Eq, Structural, Debug)]
pub struct EngineOutcome {
    pub pp: RawMetric,
    pub stars: RawMetric,
}

/// The numeric ruleset code a strategy is tagged with: 0 for vanilla, 1 for
/// relax, 2 for score-v2 — independent of the branch.
pub open spec fn spec_version_of(ct: PPCalculationType) -> u8 {
    match ct {
        PPCalculationType::VanillaNoCV => 0,
        PPCalculationType::VanillaCheats => 0,
        PPCalculationType::VanillaLegit => 0,
        PPCalculationType::VanillaCheatsLive => 0,
        PPCalculationType::RelaxNoCV => 1,
        PPCalculationType::RelaxCheats => 1,
        PPCalculationType::RelaxLegit => 1,
        PPCalculationType::RelaxCheatsLive => 1,
        PPCalculationType::ScoreV2NoCV { .. } => 2,
        PPCalculationType::ScoreV2Cheats { .. } => 2,
        PPCalculationType::ScoreV2Legit { .. } => 2,
        PPCalculationType::ScoreV2CheatsLive { .. } => 2,
    }
}

/// The relax flag carried by a score-v2 strategy; false for every other
/// ruleset.
pub open spec fn spec_relax_flag(ct: PPCalculationType) -> bool {
    match ct {
        PPCalculationType::ScoreV2NoCV { relax } => relax,
        PPCalculationType::ScoreV2Cheats { relax } => relax,
        PPCalculationType::ScoreV2Legit { relax } => relax,
        PPCalculationType::ScoreV2CheatsLive { relax } => relax,
        _ => false,
    }
}

/// The effective mod bitset: the play's mods, with the relax modifier OR-ed
/// in exactly when a score-v2 strategy carries the relax flag.
pub open spec fn spec_effective_mods(mods: u32, ct: PPCalculationType) -> u32 {
    if spec_relax_flag(ct) {
        mods | RELAX_MOD
    } else {
        mods
    }
}

/// Which engine build a strategy invokes.
pub open spec fn spec_engine_of(ct: PPCalculationType) -> EngineBuild {
    match ct {
        PPCalculationType::VanillaNoCV => EngineBuild::Main,
        PPCalculationType::RelaxNoCV => EngineBuild::Main,
        PPCalculationType::ScoreV2NoCV { .. } => EngineBuild::Main,
        PPCalculationType::VanillaCheats => EngineBuild::Main,
        PPCalculationType::RelaxCheats => EngineBuild::Main,
        PPCalculationType::ScoreV2Cheats { .. } => EngineBuild::Main,
        PPCalculationType::VanillaLegit => EngineBuild::Legit,
        PPCalculationType::RelaxLegit => EngineBuild::Legit,
        PPCalculationType::ScoreV2Legit { .. } => EngineBuild::Legit,
        PPCalculationType::VanillaCheatsLive => EngineBuild::Live,
        PPCalculationType::RelaxCheatsLive => EngineBuild::Live,
        PPCalculationType::ScoreV2CheatsLive { .. } => EngineBuild::Live,
    }
}

/// The cheat scalars a strategy forwards: only the cheat-adjustment and
/// live branches forward any, only for the vanilla and relax rulesets, and
/// the two rulesets forward different sets. The boolean flags are the
/// nonzero-ness of the corresponding raw fields.
pub open spec fn spec_cheat_inputs(score: PlayerScore, ct: PPCalculationType) -> CheatInputs {
    match ct {
        PPCalculationType::VanillaCheats => CheatInputs::AimAr {
            aim: score.aim_value,
            ar: score.ar_value,
            hdr: score.hdr != 0,
        },
        PPCalculationType::VanillaCheatsLive => CheatInputs::AimAr {
            aim: score.aim_value,
            ar: score.ar_value,
            hdr: score.hdr != 0,
        },
        PPCalculationType::RelaxCheats => CheatInputs::AimArTimewarp {
            aim: score.aim_value,
            ar: score.ar_value,
            tw: score.twval,
            cs: score.cs != 0,
        },
        PPCalculationType::RelaxCheatsLive => CheatInputs::AimArTimewarp {
            aim: score.aim_value,
            ar: score.ar_value,
            tw: score.twval,
            cs: score.cs != 0,
        },
        _ => CheatInputs::NotForwarded,
    }
}

/// The full engine input a strategy builds for a play.
pub open spec fn spec_engine_request(score: PlayerScore, ct: PPCalculationType) -> EngineRequest {
    EngineRequest {
        engine: spec_engine_of(ct),
        ruleset: spec_version_of(ct),
        mods: spec_effective_mods(score.mods, ct),
        combo: score.max_combo,
        acc: score.acc,
        n300: score.n300,
        n100: score.n100,
        n50: score.n50,
        nmiss: score.nmiss,
        cheat: spec_cheat_inputs(score, ct),
    }
}

/// The ruleset code of a strategy: 0 vanilla, 1 relax, 2 score-v2.
pub fn version_of(ct: PPCalculationType) -> (v: u8)
    ensures
        v == spec_version_of(ct),
{
    match ct {
        PPCalculationType::VanillaNoCV => 0,
        PPCalculationType::VanillaCheats => 0,
        PPCalculationType::VanillaLegit => 0,
        PPCalculationType::VanillaCheatsLive => 0,
        PPCalculationType::RelaxNoCV => 1,
        PPCalculationType::RelaxCheats => 1,
        PPCalculationType::RelaxLegit => 1,
        PPCalculationType::RelaxCheatsLive => 1,
        PPCalculationType::ScoreV2NoCV { .. } => 2,
        PPCalculationType::ScoreV2Cheats { .. } => 2,
        PPCalculationType::ScoreV2Legit { .. } => 2,
        PPCalculationType::ScoreV2CheatsLive { .. } => 2,
    }
}

/// The effective mod bitset for a play under a strategy.
pub fn effective_mods(mods: u32, ct: PPCalculationType) -> (m: u32)
    ensures
        m == spec_effective_mods(mods, ct),
{
    match ct {
        PPCalculationType::ScoreV2NoCV { relax } => if relax { mods | RELAX_MOD } else { mods },
        PPCalculationType::ScoreV2Cheats { relax } => if relax { mods | RELAX_MOD } else { mods },
        PPCalculationType::ScoreV2Legit { relax } => if relax { mods | RELAX_MOD } else { mods },
        PPCalculationType::ScoreV2CheatsLive { relax } => if relax { mods | RELAX_MOD } else { mods },
        _ => mods,
    }
}

/// Build the engine input for one play under one strategy.
pub fn build_engine_request(score: &PlayerScore, ct: PPCalculationType) -> (r: EngineRequest)
    ensures
        r == spec_engine_request(*score, ct),
{
    let engine = match ct {
        PPCalculationType::VanillaLegit => EngineBuild::Legit,
        PPCalculationType::RelaxLegit => EngineBuild::Legit,
        PPCalculationType::ScoreV2Legit { .. } => EngineBuild::Legit,
        PPCalculationType::VanillaCheatsLive => EngineBuild::Live,
        PPCalculationType::RelaxCheatsLive => EngineBuild::Live,
        PPCalculationType::ScoreV2CheatsLive { .. } => EngineBuild::Live,
        _ => EngineBuild::Main,
    };
    let cheat = match ct {
        PPCalculationType::VanillaCheats => CheatInputs::AimAr {
            aim: score.aim_value,
            ar: score.ar_value,
            hdr: score.hdr != 0,
        },
        PPCalculationType::VanillaCheatsLive => CheatInputs::AimAr {
            aim: score.aim_value,
            ar: score.ar_value,
            hdr: score.hdr != 0,
        },
        PPCalculationType::RelaxCheats => CheatInputs::AimArTimewarp {
            aim: score.aim_value,
            ar: score.ar_value,
            tw: score.twval,
            cs: score.cs != 0,
        },
        PPCalculationType::RelaxCheatsLive => CheatInputs::AimArTimewarp {
            aim: score.aim_value,
            ar: score.ar_value,
            tw: score.twval,
            cs: score.cs != 0,
        },
        _ => CheatInputs::NotForwarded,
    };
    EngineRequest {
        engine,
        ruleset: version_of(ct),
        mods: effective_mods(score.mods, ct),
        combo: score.max_combo,
        acc: score.acc,
        n300: score.n300,
        n100: score.n100,
        n50: score.n50,
        nmiss: score.nmiss,
        cheat,
    }
}

/// The record the pipeline reports for one play under one strategy, given
/// the engine's raw outcome: the original metric rounded to hundredths,
/// the outcome rounded then sanitized, the difference taken from the
/// sanitized value, the effective mods, and the ruleset tag.
pub open spec fn spec_calculate_pp(
    score: PlayerScore,
    ct: PPCalculationType,
    outcome: EngineOutcome,
) -> PPCalculationResult {
    PPCalculationResult {
        beatmap_id: score.beatmap.id,
        original_pp: spec_round_cents(score.pp as int) as i64,
        recalculated_pp: spec_final_cents(outcome.pp) as i64,
        difference: (spec_final_cents(outcome.pp) - spec_round_cents(score.pp as int)) as i64,
        stars: spec_final_cents(outcome.stars) as i64,
        mods: spec_effective_mods(score.mods, ct),
        version: spec_version_of(ct),
    }
}

/// Turn an engine outcome into the reported record for one play: round the
/// original metric and the raw outcome to hundredths, clamp non-finite
/// outcomes to zero, take the difference from the sanitized value, and tag
/// the result with the ruleset code — never with the branch.
pub fn calculate_pp(score: &PlayerScore, calc_type: PPCalculationType, outcome: EngineOutcome) -> (r: PPCalculationResult)
    ensures
        r == spec_calculate_pp(*score, calc_type, outcome),
        r.beatmap_id == score.beatmap.id,
        r.original_pp as int == spec_round_cents(score.pp as int),
        r.recalculated_pp as int == spec_final_cents(outcome.pp),
        r.stars as int == spec_final_cents(outcome.stars),
        r.difference as int == spec_final_cents(outcome.pp) - spec_round_cents(score.pp as int),
        r.mods == spec_effective_mods(score.mods, calc_type),
        r.version == spec_version_of(calc_type),
{
    let original_pp = round_cents(score.pp);
    let recalculated_pp = round_and_sanitize(outcome.pp);
    let stars = round_and_sanitize(outcome.stars);
    let difference = recalculated_pp - original_pp;
    PPCalculationResult {
        beatmap_id: score.beatmap.id,
        original_pp,
        recalculated_pp,
        difference,
        stars,
        mods: effective_mods(score.mods, calc_type),
        version: version_of(calc_type),
    }
}

/// Recalculate a whole score list under one strategy, pairing each play
/// with the engine outcome obtained for it; within one player's list the
/// upstream order is preserved.
pub fn calculate_player_results(
    scores: &Vec<PlayerScore>,
    calc_type: PPCalculationType,
    outcomes: &Vec<EngineOutcome>,
) -> (r: Vec<PPCalculationResult>)
    requires
        outcomes@.len() == scores@.len(),
    ensures
        r@.len() == scores@.len(),
        forall|i: int|
            0 <= i < r@.len() ==> #[trigger] r@[i] == spec_calculate_pp(
                scores@[i],
                calc_type,
                outcomes@[i],
            ),
{
    let n = scores.len();
    let mut out: Vec<PPCalculationResult> = Vec::new();
    let mut i: usize = 0;
    while i < n
        invariant
            i <= n,
            n == scores@.len(),
            outcomes@.len() == scores@.len(),
            out@.len() == i,
            forall|j: int|
                0 <= j < i ==> #[trigger] out@[j] == spec_calculate_pp(
                    scores@[j],
                    calc_type,
                    outcomes@[j],
                ),
        decreases n - i,
    {
        let r = calculate_pp(&scores[i], calc_type, outcomes[i]);
        out.push(r);
        i = i + 1;
    }
    out
}

/// The strategy a `(version, branch)` pair resolves to, if both codes are
/// in range: version 0/1/2 picks vanilla/relax/score-v2, branch 0/1/2/3
/// picks live / cheat-adjusted / plain / legit, and `rx` sets the relax
/// flag of a score-v2 strategy.
pub open spec fn spec_resolve(version: u8, branch: u8, rx: bool) -> Option<PPCalculationType> {
    if branch == 0 {
        if version == 0 { Some(PPCalculationType::VanillaCheatsLive) }
        else if version == 1 { Some(PPCalculationType::RelaxCheatsLive) }
        else if version == 2 { Some(PPCalculationType::ScoreV2CheatsLive { relax: rx }) }
        else { None }
    } else if branch == 1 {
        if version == 0 { Some(PPCalculationType::VanillaCheats) }
        else if version == 1 { Some(PPCalculationType::RelaxCheats) }
        else if version == 2 { Some(PPCalculationType::ScoreV2Cheats { relax: rx }) }
        else { None }
    } else if branch == 2 {
        if version == 0 { Some(PPCalculationType::VanillaNoCV) }
        else if version == 1 { Some(PPCalculationType::RelaxNoCV) }
        else if version == 2 { Some(PPCalculationType::ScoreV2NoCV { relax: rx }) }
        else { None }
    } else if branch == 3 {
        if version == 0 { Some(PPCalculationType::VanillaLegit) }
        else if version == 1 { Some(PPCalculationType::RelaxLegit) }
        else if version == 2 { Some(PPCalculationType::ScoreV2Legit { relax: rx }) }
        else { None }
    } else {
        None
    }
}

/// Resolve a `(version, branch)` pair to a strategy, or report which code
/// is out of range: an unknown branch is reported first, then an unknown
/// version.
pub fn resolve_calc_type(version: u8, branch: u8, rx: bool) -> (r: Result<PPCalculationType, PipelineError>)
    ensures
        r is Ok <==> version <= 2 && branch <= 3,
        r matches Ok(ct) ==> Some(ct) == spec_resolve(version, branch, rx),
        r matches Err(e) ==> e is InvalidParameter,
        branch > 3 ==> (r matches Err(e) && crate::pipeline::spec_error_message(e) == "Invalid branch!"@),
        branch <= 3 && version > 2 ==> (r matches Err(e) && crate::pipeline::spec_error_message(e)
            == "Invalid version!"@),
{
    if branch > 3 {
        Err(PipelineError::InvalidParameter("Invalid branch!".to_owned()))
    } else if version > 2 {
        Err(PipelineError::InvalidParameter("Invalid version!".to_owned()))
    } else {
        let ct = if branch == 0 {
            if version == 0 { PPCalculationType::VanillaCheatsLive }
            else if version == 1 { PPCalculationType::RelaxCheatsLive }
            else { PPCalculationType::ScoreV2CheatsLive { relax: rx } }
        } else if branch == 1 {
            if version == 0 { PPCalculationType::VanillaCheats }
            else if version == 1 { PPCalculationType::RelaxCheats }
            else { PPCalculationType::ScoreV2Cheats { relax: rx } }
        } else if branch == 2 {
            if version == 0 { PPCalculationType::VanillaNoCV }
            else if version == 1 { PPCalculationType::RelaxNoCV }
            else { PPCalculationType::ScoreV2NoCV { relax: rx } }
        } else {
            if version == 0 { PPCalculationType::VanillaLegit }
            else if version == 1 { PPCalculationType::RelaxLegit }
            else { PPCalculationType::ScoreV2Legit { relax: rx } }
        };
        Ok(ct)
    }
}

/// Variant matrix completeness: every in-range `(version, branch)` pair
/// resolves to a strategy; the strategy is tagged with exactly its version
/// code, whatever the branch; and distinct pairs resolve to distinct
/// strategies.
pub proof fn lemma_variant_matrix(rx: bool)
    ensures
        forall|version: u8, branch: u8|
            version <= 2 && branch <= 3 ==> #[trigger] spec_resolve(version, branch, rx) is Some,
        forall|version: u8, branch: u8|
            version <= 2 && branch <= 3 ==> spec_version_of(
                #[trigger] spec_resolve(version, branch, rx)->0,
            ) == version,
        forall|v1: u8, b1: u8, v2: u8, b2: u8|
            v1 <= 2 && b1 <= 3 && v2 <= 2 && b2 <= 3 && #[trigger] spec_resolve(v1, b1, rx)
                == #[trigger] spec_resolve(v2, b2, rx) ==> v1 == v2 && b1 == b2,
{
}

/// Sanitization, seen from the reported record: when the engine returns a
/// non-finite metric the reported value is zero and the difference is
/// computed from that zero, not from the raw value; a non-finite star
/// rating likewise reports as zero.
pub proof fn lemma_calculate_sanitizes(score: PlayerScore, outcome: EngineOutcome)
    ensures
        outcome.pp is NonFinite ==> spec_final_cents(outcome.pp) == 0,
        outcome.pp is NonFinite ==> spec_final_cents(outcome.pp) - spec_round_cents(score.pp as int)
            == 0 - spec_round_cents(score.pp as int),
        outcome.stars is NonFinite ==> spec_final_cents(outcome.stars) == 0,
{
}

} // verus!
