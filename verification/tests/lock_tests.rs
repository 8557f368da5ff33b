use campuslink::lock::{LockApp, LockManager, Locker, UnlockResult};

#[test]
fn lock_manager_unlocks_only_with_correct_password() {
    let mut m = LockManager::new();
    assert!(!m.is_locked());
    assert!(m.unlock("x", "y"));
    m.lock();
    m.lock();
    assert!(m.is_locked());
    assert!(!m.unlock("wrong", "right"));
    assert!(m.is_locked());
    assert!(m.unlock("right", "right"));
    assert!(!m.is_locked());
    assert!(!LockManager::default().is_locked());
}

#[test]
fn locker_counts_failures_and_cools_down() {
    let mut l = Locker::new("pw");
    for n in 1..5u32 {
        assert_eq!(l.try_unlock("bad"), UnlockResult::Failure { attempts: n, max_attempts: 5 });
    }
    assert_eq!(l.try_unlock("bad"), UnlockResult::Cooldown { remaining_seconds: 30 });
    assert_eq!(l.try_unlock("pw"), UnlockResult::Success);
    assert_eq!(l.attempts(), 5);
    l.reset_attempts();
    assert_eq!(l.attempts(), 0);
    assert_eq!(l.try_unlock("bad"), UnlockResult::Failure { attempts: 1, max_attempts: 5 });
}

#[test]
fn lock_app_messages() {
    let mut app = LockApp::new("secret".to_string());
    assert_eq!(app.remaining(), 5);
    app.password_input = "nope".to_string();
    app.try_unlock();
    assert_eq!(app.message, "密码错误，还可尝试 4 次");
    assert_eq!(app.password_input, "");
    for _ in 0..4 {
        app.try_unlock();
    }
    assert_eq!(app.remaining(), 0);
    assert_eq!(app.message, "密码错误次数过多，请联系教师");
    app.try_unlock();
    assert_eq!(app.attempts, 6);
    assert_eq!(app.remaining(), 0);
    app.password_input = "secret".to_string();
    app.try_unlock();
    assert!(app.success);
    assert!(app.unlocked);
    assert_eq!(app.message, "解锁成功，正在进入桌面");
    app.password_input = "other".to_string();
    app.try_unlock();
    assert_eq!(app.attempts, 6);
    assert!(app.success);
}

#[test]
fn lock_app_enter_checks_only_typed_input() {
    let mut app = LockApp::new("secret".to_string());
    app.on_enter();
    assert_eq!(app.attempts, 0);
    assert_eq!(app.message, "");
    app.password_input = "nope".to_string();
    app.on_enter();
    assert_eq!(app.attempts, 1);
    assert_eq!(app.password_input, "");
    assert_eq!(app.message, "密码错误，还可尝试 4 次");
    app.password_input = "secret".to_string();
    app.on_enter();
    assert!(app.success && app.should_exit());
    assert_eq!(app.attempts, 1);
}
