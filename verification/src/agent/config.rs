//! The student agent's persistent configuration.
use vstd::prelude::*;
use vstd::string::StringExecFns;

verus! {

/// The agent's configuration: where the teacher server is, what this device
/// registered as, and the current mode and lock state.
#[derive(Debug)]
pub struct Config {
    pub teacher_server_url: String,
    pub device_id: Option<String>,
    pub teacher_fingerprint: Option<String>,
    pub current_mode: String,
    pub heartbeat_interval_seconds: u64,
    pub student_id: Option<String>,
    pub student_no: Option<String>,
    pub student_name: Option<String>,
    pub auth_token: Option<String>,
    pub token_expires_at: Option<String>,
    pub lock_password: Option<String>,
    pub session_key: Option<String>,
    pub mode_before_lock: Option<String>,
    pub lock_is_overlay: bool,
    pub is_locked: bool,
    pub lock_pid: Option<u32>,
}

/// The characters of an optional string.
pub open spec fn opt_view(o: Option<String>) -> Option<Seq<char>> {
    match o {
        Some(s) => Some(s@),
        None => None,
    }
}

/// The characters of an optional string, or `default` when there is none.
pub open spec fn view_or(o: Option<String>, default: Seq<char>) -> Seq<char> {
    match o {
        Some(s) => s@,
        None => default,
    }
}

/// The lock password used when none is configured.
pub open spec fn default_lock_password() -> Seq<char> {
    "admin123"@
}

/// An owned copy of an optional string.
pub fn clone_opt(o: &Option<String>) -> (r: Option<String>)
    ensures
        r == *o,
{
    match o {
        Some(s) => Some(s.clone()),
        None => None,
    }
}

/// The characters of an optional string, or `default` when there is none.
pub fn string_or(o: &Option<String>, default: &str) -> (r: String)
    ensures
        r@ == view_or(*o, default@),
{
    match o {
        Some(s) => s.clone(),
        None => String::from_str(default),
    }
}

impl Config {
    /// A field-by-field copy.
    pub fn copy(&self) -> (c: Self)
        ensures
            c == *self,
    {
        Config {
            teacher_server_url: self.teacher_server_url.clone(),
            device_id: clone_opt(&self.device_id),
            teacher_fingerprint: clone_opt(&self.teacher_fingerprint),
            current_mode: self.current_mode.clone(),
            heartbeat_interval_seconds: self.heartbeat_interval_seconds,
            student_id: clone_opt(&self.student_id),
            student_no: clone_opt(&self.student_no),
            student_name: clone_opt(&self.student_name),
            auth_token: clone_opt(&self.auth_token),
            token_expires_at: clone_opt(&self.token_expires_at),
            lock_password: clone_opt(&self.lock_password),
            session_key: clone_opt(&self.session_key),
            mode_before_lock: clone_opt(&self.mode_before_lock),
            lock_is_overlay: self.lock_is_overlay,
            is_locked: self.is_locked,
            lock_pid: self.lock_pid,
        }
    }

    /// A fresh configuration: local server, open mode, unlocked, default lock password.
    pub fn default() -> (c: Self)
        ensures
            c.teacher_server_url@ == "http://localhost:8080"@,
            c.device_id is None,
            c.teacher_fingerprint is None,
            c.current_mode@ == "open"@,
            c.heartbeat_interval_seconds == 15,
            c.student_id is None,
            c.student_no is None,
            c.student_name is None,
            c.auth_token is None,
            c.token_expires_at is None,
            opt_view(c.lock_password) == Some(default_lock_password()),
            c.session_key is None,
            c.mode_before_lock is None,
            !c.lock_is_overlay,
            !c.is_locked,
            c.lock_pid is None,
    {
        Config {
            teacher_server_url: String::from_str("http://localhost:8080"),
            device_id: None,
            teacher_fingerprint: None,
            current_mode: String::from_str("open"),
            heartbeat_interval_seconds: 15,
            student_id: None,
            student_no: None,
            student_name: None,
            auth_token: None,
            token_expires_at: None,
            lock_password: Some(String::from_str("admin123")),
            session_key: None,
            mode_before_lock: None,
            lock_is_overlay: false,
            is_locked: false,
            lock_pid: None,
        }
    }
}

impl Config {
    /// The password the configuration file is sealed with: the lock
    /// password, or the default one.
    pub fn file_password(&self) -> (p: String)
        ensures
            p@ == view_or(self.lock_password, default_lock_password()),
    {
        string_or(&self.lock_password, "admin123")
    }

    /// Whether the teacher server must be looked for on the network: no
    /// address is configured, or only the default local one.
    pub fn needs_discovery(&self) -> (r: bool)
        ensures
            r == (self.teacher_server_url@.len() == 0 || self.teacher_server_url@
                == "http://localhost:8080"@),
    {
        self.teacher_server_url.as_str().is_empty() || crate::text::str_eq(
            self.teacher_server_url.as_str(),
            "http://localhost:8080",
        )
    }
}

} // verus!
