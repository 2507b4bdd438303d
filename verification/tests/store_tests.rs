use pp_recalc::beatmap::{BeatmapCache, BeatmapCacheError};

#[test]
fn path_is_directory_id_and_extension() {
    let c = BeatmapCache::new();
    assert_eq!(c.get_beatmap_path(123), ".data/beatmaps/123.osu");
    assert_eq!(c.get_beatmap_path(0), ".data/beatmaps/0.osu");
}

#[test]
fn artifact_is_immutable_and_second_round_ignores_origin() {
    let mut c = BeatmapCache::new();
    assert!(!c.has_artifact(7));
    // first round downloads and records
    let first = c.get_or_download_beatmap(7, Ok("osu file format v14".to_string()));
    assert_eq!(first.ok(), Some("osu file format v14".to_string()));
    assert!(c.has_artifact(7));
    // second round: the origin now fails, but it is never consulted —
    // the content comes back byte-identical
    let second = c.get_or_download_beatmap(
        7,
        Err(BeatmapCacheError::RequestError("origin down".to_string())),
    );
    assert_eq!(second.ok(), Some("osu file format v14".to_string()));
    // and a later download for the same id can never change the content
    let third = c.get_or_download_beatmap(7, Ok("different bytes".to_string()));
    assert_eq!(third.ok(), Some("osu file format v14".to_string()));
}

#[test]
fn miss_with_failing_origin_propagates_error() {
    let mut c = BeatmapCache::new();
    let r = c.get_or_download_beatmap(
        9,
        Err(BeatmapCacheError::RequestError("unreachable".to_string())),
    );
    match r {
        Err(BeatmapCacheError::RequestError(m)) => assert_eq!(m, "unreachable"),
        _ => panic!("expected the origin error back"),
    }
    // nothing was recorded
    assert!(!c.has_artifact(9));
    assert_eq!(c.cached_artifact(9), None);
}

#[test]
fn ids_are_independent() {
    let mut c = BeatmapCache::new();
    c.get_or_download_beatmap(1, Ok("one".to_string())).unwrap();
    c.get_or_download_beatmap(2, Ok("two".to_string())).unwrap();
    assert_eq!(c.cached_artifact(1), Some("one".to_string()));
    assert_eq!(c.cached_artifact(2), Some("two".to_string()));
    assert_eq!(c.cached_artifact(3), None);
}

#[test]
fn filesystem_error_variant_carries_message() {
    let e = BeatmapCacheError::IOError("disk full".to_string());
    match e {
        BeatmapCacheError::IOError(m) => assert_eq!(m, "disk full"),
        _ => panic!("expected the filesystem variant"),
    }
}
