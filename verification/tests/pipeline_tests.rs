use pp_recalc::calculate::{calculate_player_results, resolve_calc_type, EngineOutcome};
use pp_recalc::metric::RawMetric;
use pp_recalc::models::{BeatmapInfo, PlayerScore};
use pp_recalc::pipeline::{
    parse_request, scores_after_fetch, validate_request, PipelineError, RequestParams, ResultMap,
};

fn one_score() -> PlayerScore {
    PlayerScore {
        score: 500,
        pp: 2000000,
        acc: 1000000,
        max_combo: 100,
        mods: 0,
        n300: 100,
        n100: 0,
        n50: 0,
        nmiss: 0,
        beatmap: BeatmapInfo { id: 11, md5: "cafebabe".to_string() },
        aim_value: 0,
        ar_value: 0,
        twval: 0,
        hdr: 0,
        cs: 0,
    }
}

#[test]
fn parses_with_defaults() {
    let p = parse_request(None, None, None);
    assert_eq!(p, RequestParams { mode: 0, version: 0, rx: false });
    let p = parse_request(Some("3"), Some("2"), Some("true"));
    assert_eq!(p, RequestParams { mode: 3, version: 2, rx: true });
    // unparseable values fall back to the defaults
    let p = parse_request(Some("banana"), Some("-1"), Some("yes"));
    assert_eq!(p, RequestParams { mode: 0, version: 0, rx: false });
}

#[test]
fn mode_nine_is_rejected_before_any_work() {
    let p = parse_request(Some("9"), None, None);
    let r = validate_request(&p);
    match r {
        Err(e) => {
            // the boundary maps this to a caller-fault status
            assert_eq!(e.http_status(), 400);
            assert_eq!(e.message(), "Invalid mode. Must be between 0 and 8.");
        },
        Ok(()) => panic!("mode 9 must be rejected"),
    }
}

#[test]
fn version_three_is_rejected() {
    let p = RequestParams { mode: 0, version: 3, rx: false };
    match validate_request(&p) {
        Err(e) => {
            assert_eq!(e.http_status(), 400);
            assert_eq!(e.message(), "Invalid version. Must be between 0 and 2.");
        },
        Ok(()) => panic!("version 3 must be rejected"),
    }
}

#[test]
fn valid_bounds_pass() {
    for mode in 0u8..9 {
        for version in 0u8..3 {
            let p = RequestParams { mode, version, rx: true };
            assert!(validate_request(&p).is_ok());
        }
    }
}

#[test]
fn other_failures_map_to_internal_status() {
    assert_eq!(PipelineError::UpstreamUnavailable("x".to_string()).http_status(), 500);
    assert_eq!(PipelineError::UpstreamMalformed("x".to_string()).http_status(), 500);
    assert_eq!(PipelineError::FilesystemFailure("x".to_string()).http_status(), 500);
    assert_eq!(PipelineError::ArtifactUnparseable("x".to_string()).http_status(), 500);
}

#[test]
fn failed_player_fetch_degrades_to_empty() {
    assert_eq!(scores_after_fetch(None).len(), 0);
    assert_eq!(scores_after_fetch(Some(vec![one_score()])).len(), 1);
}

#[test]
fn two_players_one_failed_fetch_still_two_keys() {
    // leaderboard returned two players; player A has one score, player B's
    // fetch failed and degrades to zero scores — the run does not fail
    let ct = resolve_calc_type(0, 2, false).unwrap();

    let a_scores = scores_after_fetch(Some(vec![one_score()]));
    let a_outcomes = vec![EngineOutcome {
        pp: RawMetric::Finite(1900000),
        stars: RawMetric::Finite(40000),
    }];
    let a_results = calculate_player_results(&a_scores, ct, &a_outcomes);

    let b_scores = scores_after_fetch(None);
    let b_outcomes: Vec<EngineOutcome> = Vec::new();
    let b_results = calculate_player_results(&b_scores, ct, &b_outcomes);

    let mut map = ResultMap::new();
    map.insert_player("player a".to_string(), a_results);
    map.insert_player("player b".to_string(), b_results);

    assert_eq!(map.len(), 2);
    assert_eq!(map.get_player("player a").map(|v| v.len()), Some(1));
    assert_eq!(map.get_player("player b").map(|v| v.len()), Some(0));
    assert_eq!(map.get_player("player a").map(|v| v[0].beatmap_id), Some(11));
    assert!(map.get_player("nobody").is_none());
}

#[test]
fn inserting_same_player_overwrites() {
    let mut map = ResultMap::new();
    map.insert_player("p".to_string(), Vec::new());
    let ct = resolve_calc_type(1, 2, false).unwrap();
    let scores = vec![one_score()];
    let outcomes = vec![EngineOutcome { pp: RawMetric::NonFinite, stars: RawMetric::NonFinite }];
    let results = calculate_player_results(&scores, ct, &outcomes);
    map.insert_player("p".to_string(), results);
    assert_eq!(map.len(), 1);
    assert_eq!(map.get_player("p").map(|v| v.len()), Some(1));
    assert_eq!(map.get_player("p").map(|v| v[0].recalculated_pp), Some(0));
    assert_eq!(map.get_player("p").map(|v| v[0].version), Some(1));
}
