//! The agent's connection to the teacher server: the WebSocket address,
//! reconnection back-off, framing of outgoing heartbeats and of incoming
//! messages, and the bookkeeping of the heartbeat loop.
use vstd::prelude::*;
use vstd::string::StringExecFns;
use vstd::utf8::encode_utf8;
use crate::text::{replace_all, replace_str, starts_with_str, str_eq};
use crate::crypto::{
    encrypt_message, decrypt_message, valid_session_key, session_key_bytes, opened_text,
    MAX_PLAINTEXT_LEN,
};
use super::config::{Config, opt_view, view_or};
use super::command_handler::{CommandHandler, HeartbeatRequest};
use super::mode::{
    LockStep, apply_unlock_restore, complete_mode_switch, plan_mode_switch, record_lock_spawned,
    resolve_restore_mode, resolve_synced_mode, spec_resolve_restore_mode, spec_resolve_synced_mode,
    spec_start_admission_after_unlock, spec_switch_step, spec_planned_config,
};

verus! {

/// The WebSocket address for a teacher server address: `http://` becomes
/// `ws://`, `https://` becomes `wss://`, and anything else is taken as a
/// host for `ws://`.
pub open spec fn ws_base(server_url: Seq<char>) -> Seq<char> {
    if "http://"@.is_prefix_of(server_url) {
        replace_all(server_url, "http://"@, "ws://"@)
    } else if "https://"@.is_prefix_of(server_url) {
        replace_all(server_url, "https://"@, "wss://"@)
    } else {
        "ws://"@ + server_url
    }
}

/// The full WebSocket URL a registered device connects to.
pub open spec fn ws_url(c: Config, device_id: Seq<char>) -> Seq<char> {
    ws_base(c.teacher_server_url@) + "/ws?device_id="@ + device_id + "&teacher_fingerprint="@
        + view_or(c.teacher_fingerprint, Seq::empty()) + "&session_key="@ + view_or(
        c.session_key,
        Seq::empty(),
    )
}

/// The back-off before reconnect attempt `attempts`, without jitter:
/// 2^min(attempts, 5) seconds, at most 30 seconds, in milliseconds.
pub open spec fn base_reconnect_delay_ms(attempts: u32) -> int {
    let secs: int = if attempts == 0 {
        1
    } else if attempts == 1 {
        2
    } else if attempts == 2 {
        4
    } else if attempts == 3 {
        8
    } else if attempts == 4 {
        16
    } else {
        30
    };
    secs * 1000
}

/// The back-off never exceeds 30 seconds, never shrinks as failures add
/// up, and reaches its cap from the fifth failure on.
pub proof fn lemma_reconnect_backoff(a: u32, b: u32)
    ensures
        1000 <= base_reconnect_delay_ms(a) <= 30000,
        a <= b ==> base_reconnect_delay_ms(a) <= base_reconnect_delay_ms(b),
        a >= 5 ==> base_reconnect_delay_ms(a) == 30000,
{
}

/// A frame to send to the teacher server.
#[derive(Debug)]
pub enum OutgoingFrame {
    /// Plain JSON text (no session key).
    Text(String),
    /// The JSON sealed under the session key.
    Binary(Vec<u8>),
}

/// A frame received from the teacher server, or the end of the stream.
#[derive(Debug)]
pub enum IncomingFrame {
    Text(String),
    Binary(Vec<u8>),
    Ping(Vec<u8>),
    Close,
    Other,
    Error(String),
    End,
}

/// What a received frame yields.
#[derive(Debug)]
pub enum Received {
    /// A command text to handle.
    Message(String),
    /// Nothing to handle.
    Nothing,
    /// Nothing to handle; answer the ping with this pong payload.
    Pong(Vec<u8>),
}

/// The agent's side of the WebSocket connection.
pub struct WebSocketClient {
    pub config: Config,
    pub connected: bool,
    pub reconnect_attempts: u32,
}

/// A random number (`rand::random::<u64>`).  Nothing is stated of it.
#[verifier::external_body]
fn random_u64() -> u64 {
    rand::random::<u64>()
}

impl WebSocketClient {
    /// A client for `config`, not connected, with no failed attempts.
    pub fn new(config: Config) -> (c: Self)
        ensures
            c.config == config,
            !c.connected,
            c.reconnect_attempts == 0,
    {
        WebSocketClient { config, connected: false, reconnect_attempts: 0 }
    }

    /// The WebSocket URL to connect to; an unregistered device has none.
    pub fn build_ws_url(&self) -> (r: Result<String, String>)
        ensures
            self.config.device_id is None ==> (r matches Err(e) && e@ == "Device not registered"@),
            self.config.device_id matches Some(id) ==> (r matches Ok(u) && u@ == ws_url(
                self.config,
                id@,
            )),
    {
        let device_id = match &self.config.device_id {
            Some(id) => id,
            None => return Err(String::from_str("Device not registered")),
        };
        let server_url = self.config.teacher_server_url.as_str();
        let base = if starts_with_str(server_url, "http://") {
            proof {
                reveal_strlit("http://");
            }
            replace_str(server_url, "http://", "ws://")
        } else if starts_with_str(server_url, "https://") {
            proof {
                reveal_strlit("https://");
            }
            replace_str(server_url, "https://", "wss://")
        } else {
            let mut b = String::from_str("ws://");
            b.append(server_url);
            b
        };
        let mut url = base;
        url.append("/ws?device_id=");
        url.append(device_id.as_str());
        url.append("&teacher_fingerprint=");
        match &self.config.teacher_fingerprint {
            Some(f) => url.append(f.as_str()),
            None => {},
        }
        url.append("&session_key=");
        match &self.config.session_key {
            Some(k) => url.append(k.as_str()),
            None => {},
        }
        proof {
            assert(url@ =~= ws_url(self.config, device_id@));
        }
        Ok(url)
    }

    /// Records a successful connection: the failed attempts are forgotten.
    pub fn mark_connected(&mut self)
        ensures
            final(self).connected,
            final(self).reconnect_attempts == 0,
            final(self).config == old(self).config,
    {
        self.connected = true;
        self.reconnect_attempts = 0;
    }

    /// Records that the connection is gone.
    pub fn mark_disconnected(&mut self)
        ensures
            !final(self).connected,
            final(self).reconnect_attempts == old(self).reconnect_attempts,
            final(self).config == old(self).config,
    {
        self.connected = false;
    }

    /// Whether the client must reconnect: whenever it is not connected,
    /// however many attempts have failed.
    pub fn should_reconnect(&self) -> (r: bool)
        ensures
            r == !self.connected,
    {
        !self.connected
    }

    /// The back-off before the next attempt with the given jitter, in milliseconds.
    pub fn reconnect_delay_with_jitter(&self, random: u64) -> (ms: u64)
        ensures
            ms == base_reconnect_delay_ms(self.reconnect_attempts) + random % 500,
    {
        let exp: u32 = if self.reconnect_attempts < 5 {
            self.reconnect_attempts
        } else {
            5
        };
        let pow: u64 = if exp == 0 {
            1
        } else if exp == 1 {
            2
        } else if exp == 2 {
            4
        } else if exp == 3 {
            8
        } else if exp == 4 {
            16
        } else {
            32
        };
        let secs: u64 = if pow < 30 {
            pow
        } else {
            30
        };
        secs * 1000 + random % 500
    }

    /// The back-off before the next attempt, in milliseconds: exponential in
    /// the failed attempts, capped at 30 seconds, plus up to 499 ms of jitter.
    pub fn get_reconnect_delay(&self) -> (ms: u64)
        ensures
            base_reconnect_delay_ms(self.reconnect_attempts) <= ms,
            ms < base_reconnect_delay_ms(self.reconnect_attempts) + 500,
    {
        self.reconnect_delay_with_jitter(random_u64())
    }

    /// Counts one more failed attempt, saturating at the largest count.
    pub fn increment_reconnect_attempts(&mut self)
        ensures
            final(self).reconnect_attempts == if old(self).reconnect_attempts == u32::MAX {
                u32::MAX
            } else {
                (old(self).reconnect_attempts + 1) as u32
            },
            final(self).connected == old(self).connected,
            final(self).config == old(self).config,
    {
        self.reconnect_attempts = self.reconnect_attempts.saturating_add(1);
    }

    /// The heartbeat this machine reports at `timestamp`.
    pub fn heartbeat_request(&self, timestamp: u64) -> (h: HeartbeatRequest)
        ensures
            h.device_id@ == view_or(self.config.device_id, Seq::empty()),
            h.timestamp == timestamp,
            h.status@ == "online"@,
            h.mode@ == self.config.current_mode@,
            opt_view(h.teacher_fingerprint) == opt_view(self.config.teacher_fingerprint),
    {
        HeartbeatRequest {
            device_id: match &self.config.device_id {
                Some(d) => d.clone(),
                None => String::new(),
            },
            timestamp,
            status: String::from_str("online"),
            mode: self.config.current_mode.clone(),
            teacher_fingerprint: match &self.config.teacher_fingerprint {
                Some(f) => Some(f.clone()),
                None => None,
            },
        }
    }

    /// The frame that carries a serialized heartbeat: sealed under the
    /// session key when there is one, plain text otherwise.
    pub fn prepare_heartbeat(&self, json: &str) -> (r: Result<OutgoingFrame, String>)
        ensures
            !self.connected ==> (r matches Err(e) && e@ == "WebSocket not connected"@),
            self.connected && self.config.session_key is None ==> (r matches Ok(
                OutgoingFrame::Text(t),
            ) && t@ == json@),
            self.connected ==> (self.config.session_key matches Some(k) ==> {
                &&& r is Ok <==> valid_session_key(k@) && encode_utf8(json@).len()
                    <= MAX_PLAINTEXT_LEN
                &&& r matches Ok(f) ==> (f matches OutgoingFrame::Binary(b) && opened_text(
                    session_key_bytes(k@)->0,
                    b@,
                ) == Some(json@))
            }),
    {
        if !self.connected {
            return Err(String::from_str("WebSocket not connected"));
        }
        match &self.config.session_key {
            Some(key) => match encrypt_message(json, key.as_str()) {
                Ok(b) => Ok(OutgoingFrame::Binary(b)),
                Err(e) => {
                    let mut msg = String::from_str("encrypt: ");
                    msg.append(e.as_str());
                    Err(msg)
                },
            },
            None => Ok(OutgoingFrame::Text(String::from_str(json))),
        }
    }

    /// Takes in one received frame: text is a command; binary is a command
    /// sealed under the session key, dropped when it does not open; a ping
    /// is answered; a close, an error or the end of the stream drops the connection.
    pub fn receive_frame(&mut self, frame: IncomingFrame) -> (r: Result<Received, String>)
        ensures
            final(self).config == old(self).config,
            final(self).reconnect_attempts == old(self).reconnect_attempts,
            !old(self).connected ==> (r matches Ok(Received::Nothing)) && !final(self).connected,
            old(self).connected ==> match frame {
                IncomingFrame::Text(t) => (r matches Ok(Received::Message(m)) && m@ == t@)
                    && final(self).connected,
                IncomingFrame::Binary(b) => final(self).connected && match old(
                    self,
                ).config.session_key {
                    Some(k) => if valid_session_key(k@) && opened_text(
                        session_key_bytes(k@)->0,
                        b@,
                    ) is Some {
                        r matches Ok(Received::Message(m)) && Some(m@) == opened_text(
                            session_key_bytes(k@)->0,
                            b@,
                        )
                    } else {
                        r matches Ok(Received::Nothing)
                    },
                    None => r matches Ok(Received::Nothing),
                },
                IncomingFrame::Ping(p) => (r matches Ok(Received::Pong(q)) && q@ == p@)
                    && final(self).connected,
                IncomingFrame::Close => (r matches Ok(Received::Nothing)) && !final(self).connected,
                IncomingFrame::Other => (r matches Ok(Received::Nothing)) && final(self).connected,
                IncomingFrame::Error(e) => (r matches Err(m) && m@ == "WebSocket error: "@ + e@)
                    && !final(self).connected,
                IncomingFrame::End => (r matches Ok(Received::Nothing)) && !final(self).connected,
            },
    {
        if !self.connected {
            return Ok(Received::Nothing);
        }
        match frame {
            IncomingFrame::Text(t) => Ok(Received::Message(t)),
            IncomingFrame::Binary(b) => match &self.config.session_key {
                Some(key) => match decrypt_message(b.as_slice(), key.as_str()) {
                    Ok(text) => Ok(Received::Message(text)),
                    Err(_) => Ok(Received::Nothing),
                },
                None => Ok(Received::Nothing),
            },
            IncomingFrame::Ping(p) => Ok(Received::Pong(p)),
            IncomingFrame::Close => {
                self.connected = false;
                Ok(Received::Nothing)
            },
            IncomingFrame::Other => Ok(Received::Nothing),
            IncomingFrame::Error(e) => {
                self.connected = false;
                let mut msg = String::from_str("WebSocket error: ");
                msg.append(e.as_str());
                Err(msg)
            },
            IncomingFrame::End => {
                self.connected = false;
                Ok(Received::Nothing)
            },
        }
    }
}

/// The heartbeat loop's state: the connection, the command handler and the
/// loop's own copy of the configuration, kept in step with the handler's.
pub struct HeartbeatLoop {
    pub client: WebSocketClient,
    pub heartbeat_interval_seconds: u64,
    pub command_handler: CommandHandler,
    pub config: Config,
    pub process_guard_interval_seconds: u64,
    pub mode_synced: bool,
}

/// The loop's configuration after taking over the handler's lock state.
pub open spec fn spec_lock_state_synced(c: Config, h: Config) -> Config {
    Config {
        current_mode: h.current_mode,
        is_locked: h.is_locked,
        lock_pid: h.lock_pid,
        mode_before_lock: h.mode_before_lock,
        lock_is_overlay: h.lock_is_overlay,
        ..c
    }
}

/// The loop's configuration after taking over the handler's lock state and registration.
pub open spec fn spec_fully_synced(c: Config, h: Config) -> Config {
    Config {
        device_id: h.device_id,
        session_key: h.session_key,
        teacher_fingerprint: h.teacher_fingerprint,
        ..spec_lock_state_synced(c, h)
    }
}

impl HeartbeatLoop {
    /// A loop for `config`: heartbeats every 30 s, process checks every
    /// 60 s, the teacher's mode not yet synced.
    pub fn new(config: Config) -> (l: Self)
        ensures
            l.config == config,
            l.client.config == config,
            !l.client.connected,
            l.client.reconnect_attempts == 0,
            l.command_handler.config == config,
            l.heartbeat_interval_seconds == 30,
            l.process_guard_interval_seconds == 60,
            !l.mode_synced,
    {
        let client = WebSocketClient::new(config.copy());
        let command_handler = CommandHandler::new(config.copy());
        HeartbeatLoop {
            client,
            heartbeat_interval_seconds: 30,
            command_handler,
            config,
            process_guard_interval_seconds: 60,
            mode_synced: false,
        }
    }

    /// Takes over the handler's lock state after a command.
    pub fn sync_lock_state_from_handler(&mut self)
        ensures
            final(self).config == spec_lock_state_synced(
                old(self).config,
                old(self).command_handler.config,
            ),
            final(self).command_handler == old(self).command_handler,
            final(self).client == old(self).client,
            final(self).mode_synced == old(self).mode_synced,
    {
        let h = &self.command_handler.config;
        self.config.current_mode = h.current_mode.clone();
        self.config.is_locked = h.is_locked;
        self.config.lock_pid = h.lock_pid;
        self.config.mode_before_lock = super::config::clone_opt(&h.mode_before_lock);
        self.config.lock_is_overlay = h.lock_is_overlay;
    }

    /// Takes over the handler's lock state and registration after a mode change.
    pub fn sync_config_from_handler(&mut self)
        ensures
            final(self).config == spec_fully_synced(
                old(self).config,
                old(self).command_handler.config,
            ),
            final(self).command_handler == old(self).command_handler,
            final(self).client == old(self).client,
            final(self).mode_synced == old(self).mode_synced,
    {
        self.sync_lock_state_from_handler();
        let h = &self.command_handler.config;
        self.config.device_id = super::config::clone_opt(&h.device_id);
        self.config.session_key = super::config::clone_opt(&h.session_key);
        self.config.teacher_fingerprint = super::config::clone_opt(&h.teacher_fingerprint);
    }

    /// The first half of applying a mode to the handler's configuration.
    pub fn begin_mode(&mut self, target: &str) -> (step: LockStep)
        ensures
            step == spec_switch_step(old(self).command_handler.config, target@),
            final(self).command_handler.config == spec_planned_config(
                old(self).command_handler.config,
                target@,
            ),
            final(self).config == old(self).config,
            final(self).client == old(self).client,
    {
        plan_mode_switch(&mut self.command_handler.config, target)
    }

    /// Records the lock screen launched while applying a mode.
    pub fn record_mode_lock(&mut self, pid: u32)
        ensures
            final(self).command_handler.config == (Config {
                is_locked: true,
                lock_pid: Some(pid),
                ..old(self).command_handler.config
            }),
            final(self).config == old(self).config,
            final(self).client == old(self).client,
    {
        record_lock_spawned(&mut self.command_handler.config, pid);
    }

    /// The second half of applying a mode: the handler takes the mode and
    /// the loop takes over the handler's state.  Returns whether the
    /// admission check-in should start.
    pub fn finish_mode(&mut self, target: &str) -> (start_admission: bool)
        ensures
            final(self).command_handler.config.current_mode@ == target@,
            final(self).command_handler.config == (Config {
                current_mode: final(self).command_handler.config.current_mode,
                ..old(self).command_handler.config
            }),
            final(self).config == spec_fully_synced(
                old(self).config,
                final(self).command_handler.config,
            ),
            final(self).client == old(self).client,
    {
        let start = complete_mode_switch(&mut self.command_handler.config, target);
        self.sync_config_from_handler();
        start
    }

    /// The lock screen was closed by the student: restore the interrupted
    /// mode in the handler and the loop.  Returns the restored mode and
    /// whether the admission check-in should start.
    pub fn on_unlock_notification(&mut self) -> (r: (String, bool))
        ensures
            ({
                let h = old(self).command_handler.config;
                let restore = spec_resolve_restore_mode(opt_view(h.mode_before_lock), ""@);
                &&& r.0@ == restore
                &&& r.1 == spec_start_admission_after_unlock(
                    h.is_locked || h.current_mode@ == "locked"@,
                    h.lock_is_overlay,
                    restore,
                )
                &&& final(self).command_handler.config.current_mode@ == restore
                &&& final(self).command_handler.config == (Config {
                    is_locked: false,
                    lock_pid: None,
                    lock_is_overlay: false,
                    current_mode: final(self).command_handler.config.current_mode,
                    ..h
                })
                &&& final(self).config == spec_lock_state_synced(
                    old(self).config,
                    final(self).command_handler.config,
                )
            }),
            final(self).client == old(self).client,
    {
        let restore = resolve_restore_mode(&self.command_handler.config, "");
        let start = apply_unlock_restore(&mut self.command_handler.config, restore.clone());
        self.sync_lock_state_from_handler();
        (restore, start)
    }

    /// After the loop's configuration was registered with the teacher
    /// server, the handler and a fresh client take the registration over.
    pub fn adopt_registration(&mut self)
        ensures
            final(self).config == old(self).config,
            final(self).command_handler.config == (Config {
                device_id: old(self).config.device_id,
                session_key: old(self).config.session_key,
                teacher_fingerprint: old(self).config.teacher_fingerprint,
                heartbeat_interval_seconds: old(self).config.heartbeat_interval_seconds,
                ..old(self).command_handler.config
            }),
            final(self).client.config == old(self).config,
            !final(self).client.connected,
            final(self).client.reconnect_attempts == 0,
            final(self).mode_synced == old(self).mode_synced,
    {
        self.command_handler.config.device_id = super::config::clone_opt(&self.config.device_id);
        self.command_handler.config.session_key = super::config::clone_opt(&self.config.session_key);
        self.command_handler.config.teacher_fingerprint = super::config::clone_opt(
            &self.config.teacher_fingerprint,
        );
        self.command_handler.config.heartbeat_interval_seconds =
            self.config.heartbeat_interval_seconds;
        self.client = WebSocketClient::new(self.config.copy());
    }

    /// Whether the machine must register before connecting: it has no device id.
    pub fn needs_registration(&self) -> (r: bool)
        ensures
            r == self.config.device_id is None,
    {
        self.config.device_id.is_none()
    }

    /// Records that the teacher's mode has been taken over once.
    pub fn mark_mode_synced(&mut self)
        ensures
            final(self).mode_synced,
            final(self).config == old(self).config,
            final(self).client == old(self).client,
            final(self).command_handler == old(self).command_handler,
    {
        self.mode_synced = true;
    }

    /// The mode to apply after learning the teacher's mode, if it differs
    /// from the current one.
    pub fn teacher_mode_target(&self, teacher_mode: &str) -> (r: Option<String>)
        ensures
            ({
                let next = spec_resolve_synced_mode(self.config.current_mode@, teacher_mode@);
                &&& next == self.config.current_mode@ ==> r is None
                &&& next != self.config.current_mode@ ==> (r matches Some(m) && m@ == next)
            }),
    {
        let next = resolve_synced_mode(self.config.current_mode.as_str(), teacher_mode);
        if str_eq(next.as_str(), self.config.current_mode.as_str()) {
            None
        } else {
            Some(next)
        }
    }
}

} // verus!
