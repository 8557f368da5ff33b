//! Operating modes of a student machine and the rules for moving between them:
//! following the teacher, locking, and restoring the mode a lock interrupted.
use vstd::prelude::*;
use vstd::string::StringExecFns;
use crate::text::str_eq;
use super::config::{Config, opt_view};

verus! {

/// The operating modes a student machine can be in.
#[derive(Debug, Clone, Copy, PartialEq, Eq, Structural)]
pub enum ModeType {
    Open,
    Teaching,
    Exam,
    Locked,
}

/// The name under which a mode is stored and sent.
pub open spec fn mode_name(m: ModeType) -> Seq<char> {
    match m {
        ModeType::Open => "open"@,
        ModeType::Teaching => "teaching"@,
        ModeType::Exam => "exam"@,
        ModeType::Locked => "locked"@,
    }
}

/// Whether `s` names one of the four modes.
pub open spec fn is_mode_name(s: Seq<char>) -> bool {
    s == "open"@ || s == "teaching"@ || s == "exam"@ || s == "locked"@
}

/// Whether `s` names a mode in which the desktop is usable.
pub open spec fn is_unlocked_mode_name(s: Seq<char>) -> bool {
    s == "open"@ || s == "teaching"@ || s == "exam"@
}

/// Whether a mode requires the admission check-in before the desktop is used.
pub open spec fn requires_admission(s: Seq<char>) -> bool {
    s == "open"@ || s == "teaching"@
}

/// The mode a mode name selects; any name that is not a known mode means open.
pub open spec fn spec_parse_mode(s: Seq<char>) -> ModeType {
    if s == "teaching"@ {
        ModeType::Teaching
    } else if s == "exam"@ {
        ModeType::Exam
    } else if s == "locked"@ {
        ModeType::Locked
    } else {
        ModeType::Open
    }
}

/// The locally stored mode, with anything unknown read as open.
pub open spec fn spec_normalize_local_mode(s: Seq<char>) -> Seq<char> {
    if is_mode_name(s) {
        s
    } else {
        "open"@
    }
}

/// The mode to take on after connecting: a local teaching session that the
/// teacher has ended locks the machine; otherwise the teacher's known mode wins.
pub open spec fn spec_resolve_synced_mode(local: Seq<char>, teacher: Seq<char>) -> Seq<char> {
    if local == "teaching"@ && teacher != "teaching"@ {
        "locked"@
    } else if is_mode_name(teacher) {
        teacher
    } else {
        local
    }
}

/// The mode to return to when a lock ends: the remembered mode if it is a
/// usable one, else the hint if it is usable, else open.
pub open spec fn spec_resolve_restore_mode(saved: Option<Seq<char>>, hint: Seq<char>) -> Seq<char> {
    if saved is Some && is_unlocked_mode_name(saved->0) {
        saved->0
    } else if is_unlocked_mode_name(hint) {
        hint
    } else {
        "open"@
    }
}

impl ModeType {
    /// The mode's name.
    pub fn to_string(&self) -> (s: String)
        ensures
            s@ == mode_name(*self),
    {
        match self {
            ModeType::Open => String::from_str("open"),
            ModeType::Teaching => String::from_str("teaching"),
            ModeType::Exam => String::from_str("exam"),
            ModeType::Locked => String::from_str("locked"),
        }
    }
}

/// Whether `s` names one of the four modes.
pub fn is_known_mode(s: &str) -> (r: bool)
    ensures
        r == is_mode_name(s@),
{
    str_eq(s, "open") || str_eq(s, "teaching") || str_eq(s, "exam") || str_eq(s, "locked")
}

/// Whether `s` names a mode in which the desktop is usable.
pub fn is_unlocked_mode(s: &str) -> (r: bool)
    ensures
        r == is_unlocked_mode_name(s@),
{
    str_eq(s, "open") || str_eq(s, "teaching") || str_eq(s, "exam")
}

/// The mode a mode name selects.
pub fn parse_mode(mode_str: &str) -> (m: ModeType)
    ensures
        m == spec_parse_mode(mode_str@),
{
    if str_eq(mode_str, "teaching") {
        ModeType::Teaching
    } else if str_eq(mode_str, "exam") {
        ModeType::Exam
    } else if str_eq(mode_str, "locked") {
        ModeType::Locked
    } else {
        ModeType::Open
    }
}

/// The locally stored mode, with anything unknown read as open.
pub fn normalize_local_mode(mode: &str) -> (r: String)
    ensures
        r@ == spec_normalize_local_mode(mode@),
{
    if is_known_mode(mode) {
        String::from_str(mode)
    } else {
        String::from_str("open")
    }
}

/// The mode to take on after connecting to the teacher server.
pub fn resolve_synced_mode(local_mode: &str, teacher_mode: &str) -> (r: String)
    ensures
        r@ == spec_resolve_synced_mode(local_mode@, teacher_mode@),
{
    if str_eq(local_mode, "teaching") && !str_eq(teacher_mode, "teaching") {
        String::from_str("locked")
    } else if is_known_mode(teacher_mode) {
        String::from_str(teacher_mode)
    } else {
        String::from_str(local_mode)
    }
}

/// The configuration after a lock begins: the interrupted mode is
/// remembered unless the machine is already in locked mode.
pub open spec fn spec_remembered(c: Config, overlay: bool) -> Config {
    Config {
        mode_before_lock: if c.current_mode@ != "locked"@ {
            Some(c.current_mode)
        } else {
            c.mode_before_lock
        },
        lock_is_overlay: overlay,
        ..c
    }
}

/// Records the mode a lock interrupts (unless the machine is already in
/// locked mode) and whether the lock is an overlay on top of that mode.
pub fn remember_mode_before_lock(config: &mut Config, overlay: bool)
    ensures
        *final(config) == spec_remembered(*old(config), overlay),
{
    if !str_eq(config.current_mode.as_str(), "locked") {
        config.mode_before_lock = Some(config.current_mode.clone());
    }
    config.lock_is_overlay = overlay;
}

/// The mode to return to when a lock ends.
pub fn resolve_restore_mode(config: &Config, hint: &str) -> (r: String)
    ensures
        r@ == spec_resolve_restore_mode(opt_view(config.mode_before_lock), hint@),
{
    match &config.mode_before_lock {
        Some(saved) => {
            if is_unlocked_mode(saved.as_str()) {
                return saved.clone();
            }
        },
        None => {},
    }
    if is_unlocked_mode(hint) {
        String::from_str(hint)
    } else {
        String::from_str("open")
    }
}

/// Whether the admission check-in starts after an unlock: only when a full
/// lock (not an overlay) ended and the restored mode needs admission.
pub open spec fn spec_start_admission_after_unlock(
    was_locked: bool,
    overlay: bool,
    restore_mode: Seq<char>,
) -> bool {
    was_locked && !overlay && requires_admission(restore_mode)
}

/// Whether the admission check-in starts after an unlock.
pub fn should_start_admission_after_unlock(was_locked: bool, overlay: bool, restore_mode: &str) -> (r:
    bool)
    ensures
        r == spec_start_admission_after_unlock(was_locked, overlay, restore_mode@),
{
    was_locked && !overlay && (str_eq(restore_mode, "open") || str_eq(restore_mode, "teaching"))
}

/// Ends a lock in the configuration and restores `restore_mode`; the lock
/// process itself is ended, and the configuration saved, by the caller.
/// Returns whether the admission check-in should start.
pub fn apply_unlock_restore(config: &mut Config, restore_mode: String) -> (start_admission: bool)
    ensures
        start_admission == spec_start_admission_after_unlock(
            old(config).is_locked || old(config).current_mode@ == "locked"@,
            old(config).lock_is_overlay,
            restore_mode@,
        ),
        *final(config) == (Config {
            is_locked: false,
            lock_pid: None,
            lock_is_overlay: false,
            current_mode: restore_mode,
            ..*old(config)
        }),
{
    let was_locked = config.is_locked || str_eq(config.current_mode.as_str(), "locked");
    let overlay = config.lock_is_overlay;
    config.is_locked = false;
    config.lock_pid = None;
    config.lock_is_overlay = false;
    let start = should_start_admission_after_unlock(was_locked, overlay, restore_mode.as_str());
    config.current_mode = restore_mode;
    start
}

/// What a mode switch asks of the lock screen process.
#[derive(Debug, Clone, Copy, PartialEq, Eq, Structural)]
pub enum LockStep {
    /// End any lock screen process (the target mode is usable).
    ReleaseLock,
    /// Launch the lock screen process.
    SpawnLock,
    /// A lock screen is already up; leave it.
    KeepLock,
}

/// What a mode switch to `target` asks of the lock screen process.
pub open spec fn spec_switch_step(c: Config, target: Seq<char>) -> LockStep {
    if spec_parse_mode(target) != ModeType::Locked {
        LockStep::ReleaseLock
    } else if c.is_locked {
        LockStep::KeepLock
    } else {
        LockStep::SpawnLock
    }
}

/// The configuration after the first half of a mode switch to `target`:
/// a usable target clears the lock; the locked target remembers the
/// interrupted mode (as a full lock, not an overlay).
pub open spec fn spec_planned_config(c: Config, target: Seq<char>) -> Config {
    if spec_parse_mode(target) != ModeType::Locked {
        Config { is_locked: false, lock_pid: None, ..c }
    } else {
        spec_remembered(c, false)
    }
}

/// The first half of a mode switch: the configuration changes that come
/// before the lock screen process is ended or launched, and which of those
/// the caller must do.
pub fn plan_mode_switch(config: &mut Config, target_mode: &str) -> (step: LockStep)
    ensures
        step == spec_switch_step(*old(config), target_mode@),
        *final(config) == spec_planned_config(*old(config), target_mode@),
{
    match parse_mode(target_mode) {
        ModeType::Locked => {
            remember_mode_before_lock(config, false);
            if config.is_locked {
                LockStep::KeepLock
            } else {
                LockStep::SpawnLock
            }
        },
        _ => {
            config.is_locked = false;
            config.lock_pid = None;
            LockStep::ReleaseLock
        },
    }
}

/// Records a lock screen process that has been launched.
pub fn record_lock_spawned(config: &mut Config, pid: u32)
    ensures
        *final(config) == (Config { is_locked: true, lock_pid: Some(pid), ..*old(config) }),
{
    config.lock_pid = Some(pid);
    config.is_locked = true;
}

/// The second half of a mode switch: the target becomes the current mode.
/// Returns whether the admission check-in should start.
pub fn complete_mode_switch(config: &mut Config, target_mode: &str) -> (start_admission: bool)
    ensures
        final(config).current_mode@ == target_mode@,
        *final(config) == (Config { current_mode: final(config).current_mode, ..*old(config) }),
        start_admission == (spec_parse_mode(target_mode@) == ModeType::Open || spec_parse_mode(
            target_mode@,
        ) == ModeType::Teaching),
{
    config.current_mode = String::from_str(target_mode);
    let m = parse_mode(target_mode);
    m == ModeType::Open || m == ModeType::Teaching
}

/// A lock that interrupts a usable mode ends by restoring that mode,
/// whatever hint the unlock carries.
pub proof fn lemma_unlock_restores_interrupted_mode(c: Config, overlay: bool, hint: Seq<char>)
    requires
        is_unlocked_mode_name(c.current_mode@),
    ensures
        spec_resolve_restore_mode(opt_view(spec_remembered(c, overlay).mode_before_lock), hint)
            == c.current_mode@,
{
    reveal_strlit("locked");
    reveal_strlit("open");
    reveal_strlit("teaching");
    reveal_strlit("exam");
}

/// A second lock while already locked keeps the mode remembered by the
/// first, so the final unlock still returns to the mode before the first lock.
pub proof fn lemma_nested_lock_keeps_first_mode(
    c: Config,
    first_overlay: bool,
    locked_name: String,
    second_overlay: bool,
    hint: Seq<char>,
)
    requires
        is_unlocked_mode_name(c.current_mode@),
        locked_name@ == "locked"@,
    ensures
        ({
            let locked = Config { current_mode: locked_name, ..spec_remembered(c, first_overlay) };
            spec_resolve_restore_mode(
                opt_view(spec_remembered(locked, second_overlay).mode_before_lock),
                hint,
            ) == c.current_mode@
        }),
{
    reveal_strlit("locked");
    reveal_strlit("open");
    reveal_strlit("teaching");
    reveal_strlit("exam");
}

/// The configuration after further lock steps while locked: each sets the
/// mode to `locked_name` and remembers the mode a lock interrupts, with the
/// overlay flag of that step.
pub open spec fn spec_relocked(c: Config, locked_name: String, overlays: Seq<bool>) -> Config
    decreases overlays.len(),
{
    if overlays.len() == 0 {
        c
    } else {
        spec_relocked(
            spec_remembered(Config { current_mode: locked_name, ..c }, overlays[0]),
            locked_name,
            overlays.drop_first(),
        )
    }
}

/// Lock steps taken while locked keep the mode already remembered.
proof fn lemma_relocked_keeps_remembered(c: Config, locked_name: String, overlays: Seq<bool>)
    requires
        locked_name@ == "locked"@,
    ensures
        spec_relocked(c, locked_name, overlays).mode_before_lock == c.mode_before_lock,
    decreases overlays.len(),
{
    if overlays.len() > 0 {
        let next = spec_remembered(Config { current_mode: locked_name, ..c }, overlays[0]);
        assert(next.mode_before_lock == c.mode_before_lock);
        lemma_relocked_keeps_remembered(next, locked_name, overlays.drop_first());
    }
}

/// However many lock steps follow the first lock, the unlock returns to the
/// mode in force before the first one, whatever the unlock's hint.
pub proof fn lemma_any_relock_restores_first_mode(
    c: Config,
    first_overlay: bool,
    locked_name: String,
    overlays: Seq<bool>,
    hint: Seq<char>,
)
    requires
        is_unlocked_mode_name(c.current_mode@),
        locked_name@ == "locked"@,
    ensures
        spec_resolve_restore_mode(
            opt_view(
                spec_relocked(spec_remembered(c, first_overlay), locked_name, overlays).mode_before_lock,
            ),
            hint,
        ) == c.current_mode@,
{
    lemma_relocked_keeps_remembered(spec_remembered(c, first_overlay), locked_name, overlays);
    lemma_unlock_restores_interrupted_mode(c, first_overlay, hint);
}

/// Whatever was remembered and hinted, an unlock restores a usable mode.
pub proof fn lemma_restore_mode_is_usable(saved: Option<Seq<char>>, hint: Seq<char>)
    ensures
        is_unlocked_mode_name(spec_resolve_restore_mode(saved, hint)),
{
    reveal_strlit("open");
}

/// Normalizing always yields a known mode, and normalizing twice changes nothing.
pub proof fn lemma_normalize_local_mode(s: Seq<char>)
    ensures
        is_mode_name(spec_normalize_local_mode(s)),
        spec_normalize_local_mode(spec_normalize_local_mode(s)) == spec_normalize_local_mode(s),
{
}

/// Following the teacher: after connecting, the machine is in a known mode
/// whenever it was in one before.
pub proof fn lemma_synced_mode_is_known(local: Seq<char>, teacher: Seq<char>)
    requires
        is_mode_name(local),
    ensures
        is_mode_name(spec_resolve_synced_mode(local, teacher)),
{
}

/// Syncing with the teacher: unless the machine was in teaching mode, the
/// teacher's mode wins whenever it is one of open, teaching, exam or locked;
/// a teaching machine whose teacher is no longer teaching locks, and stays
/// in teaching while the teacher is; a mode the teacher sends that is not
/// one of the four leaves the local mode.
pub proof fn lemma_synced_mode_follows_teacher(local: Seq<char>, teacher: Seq<char>)
    ensures
        local != "teaching"@ && (teacher == "open"@ || teacher == "teaching"@ || teacher
            == "exam"@ || teacher == "locked"@) ==> spec_resolve_synced_mode(local, teacher)
            == teacher,
        local == "teaching"@ && teacher != "teaching"@ ==> spec_resolve_synced_mode(local, teacher)
            == "locked"@,
        local == "teaching"@ && teacher == "teaching"@ ==> spec_resolve_synced_mode(local, teacher)
            == "teaching"@,
        local != "teaching"@ && !(teacher == "open"@ || teacher == "teaching"@ || teacher
            == "exam"@ || teacher == "locked"@) ==> spec_resolve_synced_mode(local, teacher)
            == local,
{
}

} // verus!
