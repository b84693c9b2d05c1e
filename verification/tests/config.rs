use shout::config::{Config, PARAKEET_DIR_NAME};

#[test]
fn defaults() {
    let cfg = Config::default();
    assert_eq!(cfg.ollama_url, "http://localhost:11434");
    assert_eq!(cfg.hotkey, "alt+space");
    assert!(cfg.parakeet_model_dir.is_none());
}

#[test]
fn env_overrides_ollama_url() {
    let mut cfg = Config::default();
    cfg.apply_env(Some("http://tailnet-box:11434".to_string()));
    assert_eq!(cfg.ollama_url, "http://tailnet-box:11434");
}

#[test]
fn empty_env_value_keeps_ollama_url() {
    let mut cfg = Config::default();
    cfg.apply_env(Some(String::new()));
    assert_eq!(cfg.ollama_url, "http://localhost:11434");
    cfg.apply_env(None);
    assert_eq!(cfg.ollama_url, "http://localhost:11434");
}

#[test]
fn other_defaults() {
    let cfg = Config::default();
    assert_eq!(cfg.ollama_model, "qwen2.5:7b");
    assert_eq!(cfg.ghost_hotkey, "alt+shift+g");
    assert!(!cfg.live_typing);
    assert!(cfg.input_device.is_none());
    assert!(cfg.ghost_input_device.is_none());
}

#[test]
fn config_path_under_home() {
    assert_eq!(
        Config::config_path(Some("/home/jesse")).unwrap(),
        "/home/jesse/.config/shout/config.toml"
    );
    assert_eq!(
        Config::config_path(Some("/home/jesse/")).unwrap(),
        "/home/jesse/.config/shout/config.toml"
    );
    assert!(Config::config_path(None).is_none());
}

#[test]
fn parakeet_dir_fallbacks() {
    let mut cfg = Config::default();
    assert_eq!(
        cfg.parakeet_dir(None, Some("/home/j")),
        format!("/home/j/.config/shout/models/{PARAKEET_DIR_NAME}")
    );
    assert_eq!(
        cfg.parakeet_dir(Some("/repo/models"), Some("/home/j")),
        format!("/repo/models/{PARAKEET_DIR_NAME}")
    );
    assert_eq!(cfg.parakeet_dir(None, None), format!("models/{PARAKEET_DIR_NAME}"));
    cfg.parakeet_model_dir = Some("/opt/parakeet".to_string());
    assert_eq!(cfg.parakeet_dir(Some("/repo/models"), Some("/home/j")), "/opt/parakeet");
}

#[test]
fn whisper_and_vault_paths() {
    let mut cfg = Config::default();
    assert_eq!(cfg.whisper_model_path("/m"), "/m/ggml-large-v3.bin");
    assert_eq!(cfg.vault_dir(Some("/home/j")), "/home/j/Documents/ShoutVault");
    cfg.whisper_model = Some("/w.bin".to_string());
    cfg.vault_dir = Some("/vault".to_string());
    assert_eq!(cfg.whisper_model_path("/m"), "/w.bin");
    assert_eq!(cfg.vault_dir(Some("/home/j")), "/vault");
}
