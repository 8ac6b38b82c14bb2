//! Configuration loading and its fallbacks.

use git_autosnap::config::AutosnapConfig;

#[test]
fn config_loads_from_repo_config() {
    let td = tempfile::tempdir().unwrap();
    let root = td.path().to_str().unwrap().to_string();

    // Init a real repository so there is a configuration to read.
    let repo = git2::Repository::init(td.path()).unwrap();
    let mut cfg = repo.config().unwrap();
    cfg.set_str("autosnap.debounce-ms", "321").unwrap();
    cfg.set_str("autosnap.compact.days", "5").unwrap();

    let loaded = AutosnapConfig::load(&root);
    assert_eq!(loaded.debounce_ms, 321);
    assert_eq!(loaded.compact_days, 5);
}

#[test]
fn config_defaults_without_repository() {
    let td = tempfile::tempdir().unwrap();
    let root = td.path().to_str().unwrap().to_string();
    let loaded = AutosnapConfig::load(&root);
    assert_eq!(loaded.debounce_ms, 1000);
    assert_eq!(loaded.compact_days, 60);
}

#[test]
fn config_rejects_negative_values() {
    let td = tempfile::tempdir().unwrap();
    let root = td.path().to_str().unwrap().to_string();
    let repo = git2::Repository::init(td.path()).unwrap();
    let mut cfg = repo.config().unwrap();
    cfg.set_str("autosnap.debounce-ms", "-7").unwrap();
    cfg.set_str("autosnap.compact.days", "-1").unwrap();

    let loaded = AutosnapConfig::load(&root);
    assert_eq!(loaded.debounce_ms, 1000);
    assert_eq!(loaded.compact_days, 60);
}

#[test]
fn from_values_takes_ranges_into_account() {
    let c = AutosnapConfig::from_values(Some(250), Some(30));
    assert_eq!(c.debounce_ms, 250);
    assert_eq!(c.compact_days, 30);
    let c = AutosnapConfig::from_values(None, None);
    assert_eq!(c.debounce_ms, 1000);
    assert_eq!(c.compact_days, 60);
    // A value too large for the day counter falls back.
    let c = AutosnapConfig::from_values(Some(0), Some(4294967296));
    assert_eq!(c.debounce_ms, 0);
    assert_eq!(c.compact_days, 60);
}
