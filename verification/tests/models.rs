use shout::config::Config;
use shout::models::{
    download_target, find_model, registry, sentinel_path, DownloadProgress, Kind, Sentinel,
    PROGRESS_INTERVAL_MS,
};

#[test]
fn registry_has_expected_models() {
    let ids: Vec<_> = registry().iter().map(|d| d.id).collect();
    assert_eq!(
        ids,
        vec!["parakeet", "whisper", "silero_vad", "diarize_seg", "diarize_emb"]
    );
}

#[test]
fn status_matches_sentinel_paths() {
    let cfg = Config::default();
    let home = dirs::home_dir().map(|h| h.to_string_lossy().into_owned());
    let root = Config::models_root(None, home.as_deref());
    let parakeet = cfg.parakeet_dir(None, home.as_deref());
    let whisper = cfg.whisper_model_path(&root);
    let defs = registry();
    let rows: Vec<(String, bool)> = defs
        .iter()
        .map(|d| {
            let p = sentinel_path(d.sentinel, &parakeet, &whisper, &root);
            (d.id.to_string(), std::path::Path::new(&p).exists())
        })
        .collect();
    assert_eq!(rows.len(), defs.len());
    for (row, def) in rows.iter().zip(defs.iter()) {
        assert_eq!(row.0, def.id);
        let expected = match def.sentinel {
            Sentinel::ParakeetTokens => std::path::Path::new(&parakeet).join("tokens.txt"),
            Sentinel::WhisperModel => std::path::PathBuf::from(&whisper),
            Sentinel::InModelsRoot(rel) => std::path::Path::new(&root).join(rel),
        };
        assert_eq!(row.1, expected.exists());
    }
}

#[test]
fn find_model_by_id() {
    let defs = registry();
    let d = find_model(&defs, "whisper").unwrap();
    assert_eq!(d.label, "Whisper Large V3 (ghost)");
    assert_eq!(d.approx_mb, 3100);
    assert_eq!(find_model(&defs, "nope").unwrap_err(), "unknown model id nope");
}

#[test]
fn download_targets_and_sentinels() {
    assert_eq!(
        download_target(Kind::File { dest: "silero_vad.onnx" }, "/m"),
        "/m/silero_vad.onnx"
    );
    assert_eq!(
        download_target(Kind::Archive { dest_dir: "seg" }, "/m/"),
        "/m/seg.tar.bz2"
    );
    assert_eq!(sentinel_path(Sentinel::ParakeetTokens, "/p", "/w", "/m"), "/p/tokens.txt");
    assert_eq!(sentinel_path(Sentinel::WhisperModel, "/p", "/w", "/m"), "/w");
    assert_eq!(sentinel_path(Sentinel::InModelsRoot("a/b.onnx"), "/p", "/w", "/m"), "/m/a/b.onnx");
}

#[test]
fn download_progress_counts_and_throttles() {
    let mut p = DownloadProgress::new();
    assert_eq!(p.downloaded, 0);
    assert!(!p.on_chunk(65536, 10));
    assert_eq!(p.downloaded, 65536);
    assert!(!p.on_chunk(100, PROGRESS_INTERVAL_MS - 1));
    assert!(p.on_chunk(4, PROGRESS_INTERVAL_MS));
    assert_eq!(p.downloaded, 65640);
    assert!(p.on_chunk(0, 1000));
    assert_eq!(p.downloaded, 65640);
}
