use pp_recalc::calculate::{
    build_engine_request, calculate_pp, calculate_player_results, effective_mods,
    resolve_calc_type, version_of, CheatInputs, EngineBuild, EngineOutcome, PPCalculationType,
    RELAX_MOD,
};
use pp_recalc::metric::RawMetric;
use pp_recalc::models::{BeatmapInfo, PlayerScore};
use pp_recalc::pipeline::PipelineError;

fn sample_score() -> PlayerScore {
    PlayerScore {
        score: 1_000_000,
        pp: 1234567, // 123.4567 raw
        acc: 987654, // 98.7654 raw
        max_combo: 567,
        mods: 8,
        n300: 400,
        n100: 20,
        n50: 3,
        nmiss: 2,
        beatmap: BeatmapInfo { id: 42, md5: "d41d8cd98f00b204e9800998ecf8427e".to_string() },
        aim_value: 150000,
        ar_value: 95000,
        twval: 130,
        hdr: 1,
        cs: 0,
    }
}

#[test]
fn calculates_fields_from_finite_outcome() {
    let score = sample_score();
    let outcome = EngineOutcome {
        pp: RawMetric::Finite(1501234), // 150.1234 -> 150.12
        stars: RawMetric::Finite(63450), // 6.345 -> 6.35 (half away from zero)
    };
    let r = calculate_pp(&score, PPCalculationType::VanillaNoCV, outcome);
    assert_eq!(r.beatmap_id, 42);
    assert_eq!(r.original_pp, 12346); // 123.4567 -> 123.46
    assert_eq!(r.recalculated_pp, 15012);
    assert_eq!(r.stars, 635);
    assert_eq!(r.difference, 15012 - 12346);
    assert_eq!(r.mods, 8);
    assert_eq!(r.version, 0);
}

#[test]
fn sanitizes_non_finite_outcome() {
    let score = sample_score();
    let outcome = EngineOutcome { pp: RawMetric::NonFinite, stars: RawMetric::NonFinite };
    let r = calculate_pp(&score, PPCalculationType::RelaxCheats, outcome);
    // the reported metric is zero, and the difference is taken from that
    // sanitized zero, not from the raw value
    assert_eq!(r.recalculated_pp, 0);
    assert_eq!(r.stars, 0);
    assert_eq!(r.difference, 0 - 12346);
    assert_eq!(r.version, 1);
}

#[test]
fn non_finite_stars_only() {
    let score = sample_score();
    let outcome = EngineOutcome { pp: RawMetric::Finite(1000000), stars: RawMetric::NonFinite };
    let r = calculate_pp(&score, PPCalculationType::VanillaNoCV, outcome);
    assert_eq!(r.recalculated_pp, 10000);
    assert_eq!(r.stars, 0);
}

#[test]
fn variant_matrix_is_complete_and_tagged() {
    for rx in [false, true] {
        let mut seen: Vec<PPCalculationType> = Vec::new();
        for branch in 0u8..4 {
            for version in 0u8..3 {
                let ct = resolve_calc_type(version, branch, rx).unwrap_or_else(|_| {
                    panic!("variant must resolve");
                });
                assert_eq!(version_of(ct), version);
                for earlier in &seen {
                    assert!(*earlier != ct);
                }
                seen.push(ct);
            }
        }
        assert_eq!(seen.len(), 12);
    }
}

#[test]
fn out_of_range_version_and_branch_are_rejected() {
    match resolve_calc_type(3, 0, false) {
        Err(PipelineError::InvalidParameter(m)) => assert_eq!(m, "Invalid version!"),
        _ => panic!("expected an invalid-parameter error"),
    }
    match resolve_calc_type(0, 4, false) {
        Err(PipelineError::InvalidParameter(m)) => assert_eq!(m, "Invalid branch!"),
        _ => panic!("expected an invalid-parameter error"),
    }
    // an unknown branch is reported even when the version is unknown too
    match resolve_calc_type(9, 9, false) {
        Err(PipelineError::InvalidParameter(m)) => assert_eq!(m, "Invalid branch!"),
        _ => panic!("expected an invalid-parameter error"),
    }
}

#[test]
fn relax_bit_folds_into_scorev2_only() {
    let mods = 9;
    assert_eq!(
        effective_mods(mods, PPCalculationType::ScoreV2NoCV { relax: true }),
        mods | RELAX_MOD
    );
    assert_eq!(effective_mods(mods, PPCalculationType::ScoreV2NoCV { relax: false }), mods);
    assert_eq!(effective_mods(mods, PPCalculationType::VanillaNoCV), mods);
    assert_eq!(effective_mods(mods, PPCalculationType::RelaxCheatsLive), mods);
    assert_eq!(
        effective_mods(mods, PPCalculationType::ScoreV2CheatsLive { relax: true }),
        mods | RELAX_MOD
    );
}

#[test]
fn cheat_scalars_forwarded_per_branch_and_ruleset() {
    let score = sample_score();
    let r = build_engine_request(&score, PPCalculationType::VanillaCheats);
    assert_eq!(r.engine, EngineBuild::Main);
    assert_eq!(r.cheat, CheatInputs::AimAr { aim: 150000, ar: 95000, hdr: true });

    let r = build_engine_request(&score, PPCalculationType::RelaxCheatsLive);
    assert_eq!(r.engine, EngineBuild::Live);
    assert_eq!(r.cheat, CheatInputs::AimArTimewarp { aim: 150000, ar: 95000, tw: 130, cs: false });

    // the score-v2 ruleset never forwards cheat scalars
    let r = build_engine_request(&score, PPCalculationType::ScoreV2Cheats { relax: false });
    assert_eq!(r.cheat, CheatInputs::NotForwarded);

    // the legit build never receives cheat scalars
    let r = build_engine_request(&score, PPCalculationType::RelaxLegit);
    assert_eq!(r.engine, EngineBuild::Legit);
    assert_eq!(r.cheat, CheatInputs::NotForwarded);

    let r = build_engine_request(&score, PPCalculationType::VanillaNoCV);
    assert_eq!(r.engine, EngineBuild::Main);
    assert_eq!(r.cheat, CheatInputs::NotForwarded);
}

#[test]
fn engine_request_carries_play_statistics() {
    let score = sample_score();
    let r = build_engine_request(&score, PPCalculationType::ScoreV2Legit { relax: true });
    assert_eq!(r.engine, EngineBuild::Legit);
    assert_eq!(r.ruleset, 2);
    assert_eq!(r.mods, 8 | RELAX_MOD);
    assert_eq!(r.combo, 567);
    assert_eq!(r.acc, 987654);
    assert_eq!(r.n300, 400);
    assert_eq!(r.n100, 20);
    assert_eq!(r.n50, 3);
    assert_eq!(r.nmiss, 2);
}

#[test]
fn player_results_preserve_order_and_length() {
    let mut s1 = sample_score();
    s1.beatmap.id = 1;
    let mut s2 = sample_score();
    s2.beatmap.id = 2;
    let scores = vec![s1, s2];
    let outcomes = vec![
        EngineOutcome { pp: RawMetric::Finite(1000000), stars: RawMetric::Finite(50000) },
        EngineOutcome { pp: RawMetric::NonFinite, stars: RawMetric::Finite(60000) },
    ];
    let rs = calculate_player_results(&scores, PPCalculationType::VanillaNoCV, &outcomes);
    assert_eq!(rs.len(), 2);
    assert_eq!(rs[0].beatmap_id, 1);
    assert_eq!(rs[0].recalculated_pp, 10000);
    assert_eq!(rs[1].beatmap_id, 2);
    assert_eq!(rs[1].recalculated_pp, 0);
}
