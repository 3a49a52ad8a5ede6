use ferrisync::config::{
    default_concurrency, default_heartbeat_secs, default_log_level, default_purge_grace_days,
    default_retention_days, default_retry_backoff_ms, default_retry_count, default_state_db_path,
    default_true, selected_pairs, state_db_path_in, CompareMode, Config, DefaultsConfig, PairConfig, RetentionConfig,
    RetentionMode,
};
use ferrisync::error::Error;

fn pair(id: &str, source: &str, destination: &str) -> PairConfig {
    PairConfig {
        id: id.into(),
        source: source.into(),
        destination: destination.into(),
        concurrency: None,
        retention: None,
    }
}

fn config(pairs: Vec<PairConfig>) -> Config {
    Config {
        state_db: None,
        log_level: default_log_level(),
        audit_log: None,
        defaults: DefaultsConfig::default(),
        pairs,
    }
}

fn config_message(r: Result<(), Error>) -> String {
    match r {
        Err(Error::Config(m)) => m,
        other => panic!("expected a config error, got {:?}", other),
    }
}

#[test]
fn retention_defaults_are_safe() {
    let r = RetentionConfig::default();
    assert!(!r.enabled);
    assert!(r.dry_run);
    assert_eq!(r.retention_days, 4);
    assert_eq!(r.mode, RetentionMode::Quarantine);
}

#[test]
fn defaults_match_documented_values() {
    let d = DefaultsConfig::default();
    assert_eq!(d.concurrency, 4);
    assert_eq!(d.retry_count, 3);
    assert_eq!(d.retry_backoff_ms, 500);
    assert_eq!(d.compare_mode, CompareMode::SizeMtime);
    assert_eq!(d.heartbeat_secs, 10);
    assert_eq!(d.retention.purge_grace_days, 14);
    assert!(default_true());
    assert_eq!(default_retention_days(), 4);
    assert_eq!(default_purge_grace_days(), 14);
    assert_eq!(default_concurrency(), 4);
    assert_eq!(default_retry_count(), 3);
    assert_eq!(default_retry_backoff_ms(), 500);
    assert_eq!(default_heartbeat_secs(), 10);
    assert_eq!(default_log_level(), "info");
}

#[test]
fn valid_single_pair_config_passes() {
    let mut cfg = config(vec![pair("survey", "D:/src", "E:/dst")]);
    cfg.defaults.concurrency = 2;
    assert!(cfg.validate().is_ok());
}

#[test]
fn validation_rejects_config_without_pairs() {
    let cfg = config(vec![]);
    assert_eq!(config_message(cfg.validate()), "at least one [[pairs]] entry is required");
}

#[test]
fn validation_rejects_duplicate_ids() {
    let cfg = config(vec![pair("a", "s1", "d1"), pair("a", "s2", "d2")]);
    assert_eq!(config_message(cfg.validate()), "duplicate pair id: a");
}

#[test]
fn validation_rejects_blank_id_before_duplicates() {
    let cfg = config(vec![pair(" \t", "s", "d")]);
    assert_eq!(config_message(cfg.validate()), "pair id must not be empty");
}

#[test]
fn validation_rejects_empty_paths() {
    let cfg = config(vec![pair("a", "", "d")]);
    assert_eq!(config_message(cfg.validate()), "pair a: source path is empty");
    let cfg = config(vec![pair("a", "s", "")]);
    assert_eq!(config_message(cfg.validate()), "pair a: destination path is empty");
}

#[test]
fn validation_requires_quarantine_dir_for_live_quarantine() {
    let mut p = pair("a", "s", "d");
    p.retention = Some(RetentionConfig {
        enabled: true,
        dry_run: false,
        mode: RetentionMode::Quarantine,
        ..RetentionConfig::default()
    });
    let cfg = config(vec![p]);
    assert_eq!(
        config_message(cfg.validate()),
        "pair a: quarantine_dir is required when retention is enabled with mode=quarantine and dry_run=false"
    );
}

#[test]
fn quarantine_dir_not_needed_for_dry_run_or_permanent() {
    let mut p = pair("a", "s", "d");
    p.retention = Some(RetentionConfig { enabled: true, dry_run: true, ..RetentionConfig::default() });
    assert!(config(vec![p]).validate().is_ok());
    let mut p = pair("a", "s", "d");
    p.retention = Some(RetentionConfig {
        enabled: true,
        dry_run: false,
        mode: RetentionMode::Permanent,
        ..RetentionConfig::default()
    });
    assert!(config(vec![p]).validate().is_ok());
    let mut p = pair("a", "s", "d");
    p.retention = Some(RetentionConfig {
        enabled: true,
        dry_run: false,
        quarantine_dir: Some(String::new()),
        ..RetentionConfig::default()
    });
    assert!(config(vec![p]).validate().is_err());
}

#[test]
fn validation_rejects_zero_concurrency() {
    let mut cfg = config(vec![pair("a", "s", "d")]);
    cfg.defaults.concurrency = 0;
    assert_eq!(config_message(cfg.validate()), "defaults.concurrency must be >= 1");
}

#[test]
fn pair_lookup_finds_first_match_or_reports_missing() {
    let cfg = config(vec![pair("a", "s1", "d1"), pair("b", "s2", "d2")]);
    assert_eq!(cfg.pair("b").unwrap().source, "s2");
    match cfg.pair("zzz") {
        Err(Error::PairNotFound(id)) => assert_eq!(id, "zzz"),
        other => panic!("unexpected {:?}", other),
    }
}

#[test]
fn effective_settings_fall_back_to_defaults() {
    let mut cfg = config(vec![pair("a", "s", "d")]);
    cfg.defaults.concurrency = 0;
    let mut p = pair("b", "s", "d");
    assert_eq!(cfg.effective_concurrency(&p), 1);
    p.concurrency = Some(7);
    assert_eq!(cfg.effective_concurrency(&p), 7);
    p.concurrency = Some(0);
    assert_eq!(cfg.effective_concurrency(&p), 1);
    assert!(!cfg.effective_retention(&p).enabled);
    p.retention = Some(RetentionConfig { enabled: true, ..RetentionConfig::default() });
    assert!(cfg.effective_retention(&p).enabled);
}

#[test]
fn state_db_path_prefers_configured_path() {
    let mut cfg = config(vec![pair("a", "s", "d")]);
    assert!(cfg.state_db_path().ends_with("state.db"));
    assert!(default_state_db_path().ends_with("state.db"));
    cfg.state_db = Some("custom.sqlite".into());
    assert_eq!(cfg.state_db_path(), "custom.sqlite");
}

#[test]
fn selected_pairs_by_id_or_all() {
    let cfg = config(vec![pair("a", "s1", "d1"), pair("b", "s2", "d2")]);
    let all = selected_pairs(&cfg, &None).unwrap();
    assert_eq!(all.len(), 2);
    assert_eq!(all[1].id, "b");
    let one = selected_pairs(&cfg, &Some("a".into())).unwrap();
    assert_eq!(one.len(), 1);
    assert_eq!(one[0].destination, "d1");
    assert!(matches!(selected_pairs(&cfg, &Some("c".into())), Err(Error::PairNotFound(_))));
}

#[test]
fn state_db_path_in_data_dir_or_fallback() {
    assert_eq!(state_db_path_in(None), "ferrisync-state.db");
    assert_eq!(state_db_path_in(Some("/data/ferrisync".into())), "/data/ferrisync/state.db");
    assert_eq!(state_db_path_in(Some("/data/".into())), "/data/state.db");
}

#[test]
fn unset_state_db_path_is_the_default_location() {
    let cfg = config(vec![pair("a", "s", "d")]);
    assert_eq!(cfg.state_db_path(), default_state_db_path());
}
