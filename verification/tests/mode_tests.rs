use campuslink::agent::config::Config;
use campuslink::agent::mode::{
    apply_unlock_restore, complete_mode_switch, normalize_local_mode, parse_mode,
    plan_mode_switch, record_lock_spawned, remember_mode_before_lock, resolve_restore_mode,
    resolve_synced_mode, should_start_admission_after_unlock, LockStep, ModeType,
};

#[test]
fn normalize_local_mode_defaults_unknown_to_open() {
    assert_eq!(normalize_local_mode(""), "open");
    assert_eq!(normalize_local_mode("foo"), "open");
    assert_eq!(normalize_local_mode("teaching"), "teaching");
    assert_eq!(normalize_local_mode("locked"), "locked");
}

#[test]
fn resolve_synced_mode_locks_when_teaching_ended() {
    assert_eq!(resolve_synced_mode("teaching", "open"), "locked");
    assert_eq!(resolve_synced_mode("teaching", "exam"), "locked");
    assert_eq!(resolve_synced_mode("teaching", "locked"), "locked");
    assert_eq!(resolve_synced_mode("teaching", "teaching"), "teaching");
}

#[test]
fn resolve_synced_mode_follows_teacher_otherwise() {
    assert_eq!(resolve_synced_mode("open", "exam"), "exam");
    assert_eq!(resolve_synced_mode("locked", "open"), "open");
    assert_eq!(resolve_synced_mode("open", "unknown"), "open");
}

#[test]
fn unlock_skips_admission_when_not_locked() {
    assert!(!should_start_admission_after_unlock(false, false, "teaching"));
    assert!(!should_start_admission_after_unlock(false, false, "open"));
    assert!(!should_start_admission_after_unlock(true, true, "teaching"));
    assert!(should_start_admission_after_unlock(true, false, "teaching"));
    assert!(should_start_admission_after_unlock(true, false, "open"));
    assert!(!should_start_admission_after_unlock(true, false, "exam"));
}

#[test]
fn parse_mode_reads_names_and_defaults_to_open() {
    assert_eq!(parse_mode("teaching"), ModeType::Teaching);
    assert_eq!(parse_mode("exam"), ModeType::Exam);
    assert_eq!(parse_mode("locked"), ModeType::Locked);
    assert_eq!(parse_mode("open"), ModeType::Open);
    assert_eq!(parse_mode("Teaching"), ModeType::Open);
    assert_eq!(ModeType::Exam.to_string(), "exam");
}

#[test]
fn lock_then_unlock_restores_interrupted_mode() {
    let mut config = Config::default();
    config.current_mode = "teaching".to_string();
    let step = plan_mode_switch(&mut config, "locked");
    assert_eq!(step, LockStep::SpawnLock);
    assert_eq!(config.mode_before_lock.as_deref(), Some("teaching"));
    record_lock_spawned(&mut config, 4242);
    let start = complete_mode_switch(&mut config, "locked");
    assert!(!start);
    assert_eq!(config.current_mode, "locked");
    assert!(config.is_locked);
    let restore = resolve_restore_mode(&config, "exam");
    assert_eq!(restore, "teaching");
    let admission = apply_unlock_restore(&mut config, restore);
    assert!(admission);
    assert_eq!(config.current_mode, "teaching");
    assert!(!config.is_locked);
    assert_eq!(config.lock_pid, None);
}

#[test]
fn nested_lock_keeps_first_remembered_mode() {
    let mut config = Config::default();
    config.current_mode = "exam".to_string();
    remember_mode_before_lock(&mut config, false);
    config.current_mode = "locked".to_string();
    remember_mode_before_lock(&mut config, true);
    assert_eq!(config.mode_before_lock.as_deref(), Some("exam"));
    assert!(config.lock_is_overlay);
    assert_eq!(resolve_restore_mode(&config, "open"), "exam");
}

#[test]
fn restore_falls_back_to_hint_then_open() {
    let mut config = Config::default();
    config.mode_before_lock = Some("locked".to_string());
    assert_eq!(resolve_restore_mode(&config, "exam"), "exam");
    assert_eq!(resolve_restore_mode(&config, "locked"), "open");
    config.mode_before_lock = None;
    assert_eq!(resolve_restore_mode(&config, ""), "open");
}

#[test]
fn switching_to_usable_mode_releases_lock() {
    let mut config = Config::default();
    config.is_locked = true;
    config.lock_pid = Some(7);
    assert_eq!(plan_mode_switch(&mut config, "exam"), LockStep::ReleaseLock);
    assert!(!config.is_locked);
    assert_eq!(config.lock_pid, None);
    assert!(!complete_mode_switch(&mut config, "exam"));
    assert!(complete_mode_switch(&mut config, "open"));
}

#[test]
fn locking_an_already_locked_screen_keeps_it() {
    let mut config = Config::default();
    config.is_locked = true;
    assert_eq!(plan_mode_switch(&mut config, "locked"), LockStep::KeepLock);
}

#[test]
fn default_config_values() {
    let c = Config::default();
    assert_eq!(c.teacher_server_url, "http://localhost:8080");
    assert_eq!(c.current_mode, "open");
    assert_eq!(c.heartbeat_interval_seconds, 15);
    assert_eq!(c.lock_password.as_deref(), Some("admin123"));
    assert!(c.needs_discovery());
    assert_eq!(c.file_password(), "admin123");
}

#[test]
fn repeated_locks_restore_the_first_mode() {
    let mut config = Config::default();
    config.current_mode = "teaching".to_string();
    remember_mode_before_lock(&mut config, false);
    for overlay in [true, false, true] {
        config.current_mode = "locked".to_string();
        remember_mode_before_lock(&mut config, overlay);
    }
    assert_eq!(resolve_restore_mode(&config, "exam"), "teaching");
    assert_eq!(resolve_restore_mode(&config, "bogus"), "teaching");
}
