//! The agent's handling of commands pushed by the teacher server.
//!
//! Handling a command decides how the configuration changes and what the
//! caller must then do with processes and files: launch or end the lock
//! screen, start the admission check-in, save the configuration.
use vstd::prelude::*;
use vstd::string::StringExecFns;
use crate::text::str_eq;
use super::config::{Config, view_or, opt_view, default_lock_password};
use super::mode::{
    LockStep,
    apply_unlock_restore,
    plan_mode_switch,
    remember_mode_before_lock,
    resolve_restore_mode,
    spec_remembered,
    spec_resolve_restore_mode,
    spec_start_admission_after_unlock,
    spec_switch_step,
    spec_planned_config,
    is_unlocked_mode_name,
    requires_admission,
};

verus! {

/// A command from the teacher server.
#[derive(Debug, Clone)]
pub enum WebSocketCommand {
    /// Switch the machine to another mode.
    ModeSwitch { device_id: String, mode: String, operator: String, timestamp: u64 },
    /// Put the lock screen over the current mode.
    LockScreen { device_id: String, reason: String, timestamp: u64 },
    /// End the lock screen and restore a mode.
    Unlock { device_id: String, restore_mode: String, timestamp: u64 },
    /// Start the admission check-in.
    CheckinTrigger { device_id: String, timestamp: u64 },
    /// Replace the lock screen's password.
    SuperPwd { password: String, timestamp: u64 },
    /// The server's answer to a heartbeat.
    HeartbeatAck { ack_code: i32, message: Option<String> },
    /// Anything else.
    Unknown { raw: String },
}

/// A heartbeat sent to the teacher server.
#[derive(Debug, Clone)]
pub struct HeartbeatRequest {
    pub device_id: String,
    pub timestamp: u64,
    pub status: String,
    pub mode: String,
    pub teacher_fingerprint: Option<String>,
}

/// What the caller must do after a command was handled.
#[derive(Debug)]
pub enum CommandAction {
    /// Nothing: the command was for another device, or needs no action.
    Ignore,
    /// A mode switch is under way: stop the admission check-in, carry out
    /// `step` on the lock screen process, then finish the switch to `mode`.
    SwitchMode { mode: String, step: LockStep },
    /// The lock screen is already up; the mode is now locked: save the configuration.
    LockAlreadyActive,
    /// Launch the lock screen with `password`; when it stays up, record it.
    SpawnLockScreen { password: String, reason: String },
    /// The lock ended: end the lock screen process, save the configuration,
    /// and start the admission check-in when `start_admission` holds.
    Unlocked { restore_mode: String, start_admission: bool },
    /// The lock password changed: save the configuration.
    PasswordUpdated,
    /// Start the admission check-in.
    StartAdmission,
}

/// Whether a command carrying `device_id` is meant for this machine: an
/// empty id addresses every machine.
pub open spec fn targets_device(config: Config, device_id: Seq<char>) -> bool {
    device_id.len() == 0 || device_id == view_or(config.device_id, Seq::empty())
}

/// The configuration after a lock screen command: the interrupted mode is
/// remembered as under an overlay, and an existing lock switches the mode to locked.
pub open spec fn spec_lock_screen_config(c: Config, locked_name: String) -> Config {
    if c.is_locked {
        Config { current_mode: locked_name, ..spec_remembered(c, true) }
    } else {
        spec_remembered(c, true)
    }
}

/// The configuration once a launched lock screen is known to be up.
pub open spec fn spec_lock_started(c: Config, pid: u32, locked_name: String) -> Config {
    Config { lock_pid: Some(pid), is_locked: true, current_mode: locked_name, ..c }
}

/// Whether an unlock was of a real lock: a lock screen is up or the mode is locked.
pub open spec fn spec_was_locked(c: Config) -> bool {
    c.is_locked || c.current_mode@ == "locked"@
}

/// Handles the teacher's commands for one machine.
pub struct CommandHandler {
    pub config: Config,
}

/// Whether `device_id` addresses this machine.
fn is_for_this_device(config: &Config, device_id: &str) -> (r: bool)
    ensures
        r == targets_device(*config, device_id@),
{
    if device_id.is_empty() {
        return true;
    }
    match &config.device_id {
        Some(id) => str_eq(device_id, id.as_str()),
        None => false,
    }
}

impl CommandHandler {
    /// A handler working on `config`.
    pub fn new(config: Config) -> (h: Self)
        ensures
            h.config == config,
    {
        CommandHandler { config }
    }

    /// Handles one command and says what the caller must do next.
    pub fn handle_command(&mut self, command: WebSocketCommand) -> (action: CommandAction)
        ensures
            match command {
                WebSocketCommand::ModeSwitch { device_id, mode, .. } => if targets_device(
                    old(self).config,
                    device_id@,
                ) {
                    &&& action matches CommandAction::SwitchMode { mode: m, step }
                    &&& m@ == mode@
                    &&& step == spec_switch_step(old(self).config, mode@)
                    &&& final(self).config == spec_planned_config(old(self).config, mode@)
                } else {
                    action is Ignore && final(self).config == old(self).config
                },
                WebSocketCommand::LockScreen { device_id, reason, .. } => if targets_device(
                    old(self).config,
                    device_id@,
                ) {
                    &&& final(self).config == spec_lock_screen_config(
                        old(self).config,
                        final(self).config.current_mode,
                    )
                    &&& old(self).config.is_locked ==> final(self).config.current_mode@
                        == "locked"@ && action is LockAlreadyActive
                    &&& !old(self).config.is_locked ==> (action matches CommandAction::SpawnLockScreen {
                        password: p,
                        reason: r,
                    } && p@ == view_or(old(self).config.lock_password, default_lock_password())
                        && r@ == reason@)
                } else {
                    action is Ignore && final(self).config == old(self).config
                },
                WebSocketCommand::Unlock { device_id, restore_mode, .. } => if targets_device(
                    old(self).config,
                    device_id@,
                ) {
                    let restore = spec_resolve_restore_mode(
                        opt_view(old(self).config.mode_before_lock),
                        restore_mode@,
                    );
                    &&& action matches CommandAction::Unlocked { restore_mode: m, start_admission }
                    &&& m@ == restore
                    &&& start_admission == spec_start_admission_after_unlock(
                        spec_was_locked(old(self).config),
                        old(self).config.lock_is_overlay,
                        restore,
                    )
                    &&& final(self).config.current_mode@ == restore
                    &&& final(self).config == (Config {
                        is_locked: false,
                        lock_pid: None,
                        lock_is_overlay: false,
                        current_mode: final(self).config.current_mode,
                        ..old(self).config
                    })
                } else {
                    action is Ignore && final(self).config == old(self).config
                },
                WebSocketCommand::CheckinTrigger { device_id, .. } => {
                    &&& final(self).config == old(self).config
                    &&& targets_device(old(self).config, device_id@) ==> action is StartAdmission
                    &&& !targets_device(old(self).config, device_id@) ==> action is Ignore
                },
                WebSocketCommand::SuperPwd { password, .. } => {
                    &&& action is PasswordUpdated
                    &&& final(self).config == (Config {
                        lock_password: Some(password),
                        ..old(self).config
                    })
                },
                WebSocketCommand::HeartbeatAck { .. } => action is Ignore && final(self).config
                    == old(self).config,
                WebSocketCommand::Unknown { .. } => action is Ignore && final(self).config
                    == old(self).config,
            },
    {
        match command {
            WebSocketCommand::ModeSwitch { device_id, mode, operator: _, timestamp: _ } => {
                if !is_for_this_device(&self.config, device_id.as_str()) {
                    return CommandAction::Ignore;
                }
                let step = plan_mode_switch(&mut self.config, mode.as_str());
                CommandAction::SwitchMode { mode, step }
            },
            WebSocketCommand::LockScreen { device_id, reason, timestamp: _ } => {
                if !is_for_this_device(&self.config, device_id.as_str()) {
                    return CommandAction::Ignore;
                }
                remember_mode_before_lock(&mut self.config, true);
                if self.config.is_locked {
                    self.config.current_mode = String::from_str("locked");
                    return CommandAction::LockAlreadyActive;
                }
                let password = match &self.config.lock_password {
                    Some(p) => p.clone(),
                    None => String::from_str("admin123"),
                };
                CommandAction::SpawnLockScreen { password, reason }
            },
            WebSocketCommand::Unlock { device_id, restore_mode, timestamp: _ } => {
                if !is_for_this_device(&self.config, device_id.as_str()) {
                    return CommandAction::Ignore;
                }
                let restore = resolve_restore_mode(&self.config, restore_mode.as_str());
                let start_admission = apply_unlock_restore(&mut self.config, restore.clone());
                CommandAction::Unlocked { restore_mode: restore, start_admission }
            },
            WebSocketCommand::SuperPwd { password, timestamp: _ } => {
                self.config.lock_password = Some(password);
                CommandAction::PasswordUpdated
            },
            WebSocketCommand::CheckinTrigger { device_id, timestamp: _ } => {
                if !is_for_this_device(&self.config, device_id.as_str()) {
                    return CommandAction::Ignore;
                }
                CommandAction::StartAdmission
            },
            WebSocketCommand::HeartbeatAck { .. } => CommandAction::Ignore,
            WebSocketCommand::Unknown { .. } => CommandAction::Ignore,
        }
    }

    /// Records a lock screen, launched for a lock screen command, that stayed up.
    pub fn record_lock_screen_started(&mut self, pid: u32)
        ensures
            final(self).config == spec_lock_started(
                old(self).config,
                pid,
                final(self).config.current_mode,
            ),
            final(self).config.current_mode@ == "locked"@,
    {
        self.config.lock_pid = Some(pid);
        self.config.is_locked = true;
        self.config.current_mode = String::from_str("locked");
    }
}

/// A lock screen put over a usable mode and then lifted returns the machine
/// to that mode, whatever mode the unlock hints at, and does not run the
/// admission check-in again.
pub proof fn lemma_overlay_lock_round_trip(
    c: Config,
    pid: u32,
    locked_name: String,
    hint: Seq<char>,
)
    requires
        is_unlocked_mode_name(c.current_mode@),
        !c.is_locked,
        locked_name@ == "locked"@,
    ensures
        ({
            let locked = spec_lock_started(spec_lock_screen_config(c, locked_name), pid, locked_name);
            let restore = spec_resolve_restore_mode(opt_view(locked.mode_before_lock), hint);
            &&& restore == c.current_mode@
            &&& !spec_start_admission_after_unlock(
                spec_was_locked(locked),
                locked.lock_is_overlay,
                restore,
            )
        }),
{
    reveal_strlit("locked");
    reveal_strlit("open");
    reveal_strlit("teaching");
    reveal_strlit("exam");
}

/// A full lock taken by a mode switch from a usable mode and then lifted
/// returns the machine to that mode, and runs the admission check-in exactly
/// when that mode needs it.
pub proof fn lemma_mode_lock_round_trip(
    c: Config,
    target: Seq<char>,
    pid: u32,
    locked_name: String,
    hint: Seq<char>,
)
    requires
        is_unlocked_mode_name(c.current_mode@),
        target == "locked"@,
        locked_name@ == "locked"@,
    ensures
        ({
            let planned = spec_planned_config(c, target);
            let locked = Config {
                lock_pid: if c.is_locked { planned.lock_pid } else { Some(pid) },
                is_locked: true,
                current_mode: locked_name,
                ..planned
            };
            let restore = spec_resolve_restore_mode(opt_view(locked.mode_before_lock), hint);
            &&& restore == c.current_mode@
            &&& spec_start_admission_after_unlock(
                spec_was_locked(locked),
                locked.lock_is_overlay,
                restore,
            ) == requires_admission(c.current_mode@)
        }),
{
    reveal_strlit("locked");
    reveal_strlit("open");
    reveal_strlit("teaching");
    reveal_strlit("exam");
    assert("locked"@.len() == 6);
    assert("teaching"@.len() == 8);
    assert("exam"@.len() == 4);

}

} // verus!
