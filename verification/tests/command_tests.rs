use campuslink::agent::command_handler::{CommandAction, CommandHandler, WebSocketCommand};
use campuslink::agent::config::Config;
use campuslink::agent::mode::LockStep;

fn handler() -> CommandHandler {
    let mut c = Config::default();
    c.device_id = Some("dev-1".to_string());
    c.current_mode = "exam".to_string();
    CommandHandler::new(c)
}

#[test]
fn commands_for_other_devices_are_ignored() {
    let mut h = handler();
    let a = h.handle_command(WebSocketCommand::ModeSwitch {
        device_id: "dev-2".into(),
        mode: "locked".into(),
        operator: "t".into(),
        timestamp: 0,
    });
    assert!(matches!(a, CommandAction::Ignore));
    assert_eq!(h.config.current_mode, "exam");
    let a = h.handle_command(WebSocketCommand::CheckinTrigger { device_id: "dev-2".into(), timestamp: 0 });
    assert!(matches!(a, CommandAction::Ignore));
    let a = h.handle_command(WebSocketCommand::CheckinTrigger { device_id: "".into(), timestamp: 0 });
    assert!(matches!(a, CommandAction::StartAdmission));
}

#[test]
fn lock_screen_then_unlock_restores_mode() {
    let mut h = handler();
    let a = h.handle_command(WebSocketCommand::LockScreen {
        device_id: "dev-1".into(),
        reason: "quiz".into(),
        timestamp: 1,
    });
    match a {
        CommandAction::SpawnLockScreen { password, reason } => {
            assert_eq!(password, "admin123");
            assert_eq!(reason, "quiz");
        }
        _ => panic!("expected spawn"),
    }
    assert_eq!(h.config.mode_before_lock.as_deref(), Some("exam"));
    assert!(h.config.lock_is_overlay);
    h.record_lock_screen_started(321);
    assert_eq!(h.config.current_mode, "locked");
    let again = h.handle_command(WebSocketCommand::LockScreen {
        device_id: "".into(),
        reason: "again".into(),
        timestamp: 2,
    });
    assert!(matches!(again, CommandAction::LockAlreadyActive));
    let a = h.handle_command(WebSocketCommand::Unlock {
        device_id: "dev-1".into(),
        restore_mode: "open".into(),
        timestamp: 3,
    });
    match a {
        CommandAction::Unlocked { restore_mode, start_admission } => {
            assert_eq!(restore_mode, "exam");
            assert!(!start_admission);
        }
        _ => panic!("expected unlock"),
    }
    assert!(!h.config.is_locked);
    assert_eq!(h.config.current_mode, "exam");
}

#[test]
fn mode_switch_and_password_update() {
    let mut h = handler();
    match h.handle_command(WebSocketCommand::ModeSwitch {
        device_id: "dev-1".into(),
        mode: "locked".into(),
        operator: "t".into(),
        timestamp: 0,
    }) {
        CommandAction::SwitchMode { mode, step } => {
            assert_eq!(mode, "locked");
            assert_eq!(step, LockStep::SpawnLock);
        }
        _ => panic!("expected switch"),
    }
    let a = h.handle_command(WebSocketCommand::SuperPwd { password: "new".into(), timestamp: 0 });
    assert!(matches!(a, CommandAction::PasswordUpdated));
    assert_eq!(h.config.lock_password.as_deref(), Some("new"));
    let a = h.handle_command(WebSocketCommand::HeartbeatAck { ack_code: 0, message: None });
    assert!(matches!(a, CommandAction::Ignore));
    let a = h.handle_command(WebSocketCommand::Unknown { raw: "?".into() });
    assert!(matches!(a, CommandAction::Ignore));
}
