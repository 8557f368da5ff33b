//! The teacher server's side of the agent protocol: answer envelopes, mode
//! commands and their wire values, the JSON commands pushed to agents, the
//! WebSocket admission check, heartbeat handling, and how each outgoing
//! frame is sealed.
use vstd::prelude::*;
use vstd::string::StringExecFns;
use vstd::utf8::{encode_utf8, decode_utf8, valid_utf8, is_ascii_chars};
use crate::text::{signed_decimal, str_eq, starts_with_str, chars_of, string_of_chars, i64_to_decimal};
use crate::agent::mode::{is_mode_name, is_known_mode};
use crate::crypto::{
    encrypt_message, valid_session_key, session_key_bytes, opened_text, is_hex, hex_bytes,
    is_hex_digit, MAX_PLAINTEXT_LEN,
};
use super::base64::{base64_decode, base64_readable, spec_base64_decode};

verus! {

broadcast use vstd::utf8::group_utf8_lib;

/// The JSON envelope of every answer: code 0 and `ok` with data on success,
/// an error code and message without data otherwise.
#[derive(Debug)]
pub struct ApiResponse<T> {
    pub code: i32,
    pub message: String,
    pub data: Option<T>,
}

impl<T> ApiResponse<T> {
    /// A successful answer carrying `data`.
    pub fn success(data: T) -> (r: Self)
        ensures
            r.code == 0,
            r.message@ == "ok"@,
            r.data == Some(data),
    {
        ApiResponse { code: 0, message: String::from_str("ok"), data: Some(data) }
    }

    /// A failed answer.
    pub fn error(code: i32, message: String) -> (r: Self)
        ensures
            r.code == code,
            r.message == message,
            r.data is None,
    {
        ApiResponse { code, message, data: None }
    }
}

/// A device registration as the server receives it.
#[derive(Debug)]
pub struct RegisterDeviceRequest {
    pub device_code: String,
    pub machine_fingerprint: String,
    pub hostname: String,
    pub ip_address: String,
    pub mac_address: String,
    pub agent_version: String,
}

/// The server's answer to a registration.
#[derive(Debug)]
pub struct RegisterDeviceResponse {
    pub device_id: String,
    pub teacher_fingerprint: String,
    pub initial_mode: String,
    pub heartbeat_interval_seconds: u32,
    pub session_key: String,
}

/// A teacher's request to switch a device's mode.
#[derive(Debug)]
pub struct ModeSwitchRequest {
    pub target_mode: String,
    pub device_id: String,
    pub operator_name: String,
    pub class_id: Option<String>,
}

/// The server's answer to a mode switch.
#[derive(Debug)]
pub struct ModeSwitchResponse {
    pub command_id: String,
    pub device_id: String,
    pub target_mode: String,
    pub effective_mode: String,
    pub admission_blocked: bool,
    pub delivery_status: String,
}

/// A teacher's request to lock or unlock a device.
#[derive(Debug)]
pub struct LockScreenRequest {
    pub device_id: String,
    pub reason: Option<String>,
}

/// Whether a mode starts the admission check-in on the device.
pub fn requires_checkin(mode: &str) -> (r: bool)
    ensures
        r == (mode@ == "open"@ || mode@ == "teaching"@),
{
    str_eq(mode, "open") || str_eq(mode, "teaching")
}

/// Checks a requested mode: the four modes are accepted; anything else is
/// refused with a message that lists them.
pub fn validate_target_mode(target_mode: &str) -> (r: Result<(), String>)
    ensures
        r is Ok <==> is_mode_name(target_mode@),
        r matches Err(e) ==> e@ == "非法模式: "@ + target_mode@ + "（可选: open/teaching/exam/locked）"@,
{
    if is_known_mode(target_mode) {
        Ok(())
    } else {
        let mut e = String::from_str("非法模式: ");
        e.append(target_mode);
        e.append("（可选: open/teaching/exam/locked）");
        Err(e)
    }
}

/// The wire value of a mode in a binary mode command.
pub open spec fn spec_mode_value(mode: Seq<char>) -> i32 {
    if mode == "teaching"@ {
        1
    } else if mode == "exam"@ {
        3
    } else if mode == "locked"@ {
        4
    } else {
        0
    }
}

/// The mode a wire value stands for; unknown values mean open.
pub open spec fn spec_mode_name_of(v: i32) -> Seq<char> {
    if v == 1 {
        "teaching"@
    } else if v == 3 {
        "exam"@
    } else if v == 4 {
        "locked"@
    } else {
        "open"@
    }
}

/// The wire value of a mode.
pub fn mode_to_proto_value(mode: &str) -> (v: i32)
    ensures
        v == spec_mode_value(mode@),
{
    if str_eq(mode, "teaching") {
        1
    } else if str_eq(mode, "exam") {
        3
    } else if str_eq(mode, "locked") {
        4
    } else {
        0
    }
}

/// The mode a wire value stands for.
pub fn mode_value_to_str(v: i32) -> (s: String)
    ensures
        s@ == spec_mode_name_of(v),
{
    if v == 1 {
        String::from_str("teaching")
    } else if v == 3 {
        String::from_str("exam")
    } else if v == 4 {
        String::from_str("locked")
    } else {
        String::from_str("open")
    }
}

/// A mode sent as its wire value is read back as the same mode.
pub proof fn lemma_mode_value_round_trip(mode: Seq<char>)
    requires
        is_mode_name(mode),
    ensures
        spec_mode_name_of(spec_mode_value(mode)) == mode,
{
}

/// The command that switches a device's mode.
pub open spec fn spec_mode_switch_message(
    device_id: Seq<char>,
    mode: Seq<char>,
    operator: Seq<char>,
    timestamp: i64,
) -> Seq<char> {
    "{\"type\":\"mode_switch\",\"device_id\":\""@ + device_id + "\",\"mode\":\""@ + mode
        + "\",\"operator\":\""@ + operator + "\",\"timestamp\":"@ + signed_decimal(timestamp as int)
        + "}"@
}

/// The command that puts the lock screen up.
pub open spec fn spec_lock_screen_message(device_id: Seq<char>, reason: Seq<char>, timestamp: i64) -> Seq<
    char,
> {
    "{\"type\":\"lock_screen\",\"device_id\":\""@ + device_id + "\",\"reason\":\""@ + reason
        + "\",\"timestamp\":"@ + signed_decimal(timestamp as int) + "}"@
}

/// The command that lifts the lock screen and names the mode to restore.
pub open spec fn spec_unlock_message(device_id: Seq<char>, restore_mode: Seq<char>, timestamp: i64) -> Seq<
    char,
> {
    "{\"type\":\"unlock\",\"device_id\":\""@ + device_id + "\",\"restore_mode\":\""@ + restore_mode
        + "\",\"timestamp\":"@ + signed_decimal(timestamp as int) + "}"@
}

/// The command that starts the admission check-in.
pub open spec fn spec_checkin_trigger_message(device_id: Seq<char>, timestamp: i64) -> Seq<char> {
    "{\"type\":\"checkin_trigger\",\"device_id\":\""@ + device_id + "\",\"timestamp\":"@
        + signed_decimal(timestamp as int) + "}"@
}

/// The command that switches a device's mode.
pub fn mode_switch_message(device_id: &str, mode: &str, operator: &str, timestamp: i64) -> (r:
    String)
    ensures
        r@ == spec_mode_switch_message(device_id@, mode@, operator@, timestamp),
{
    let mut r = String::from_str("{\"type\":\"mode_switch\",\"device_id\":\"");
    r.append(device_id);
    r.append("\",\"mode\":\"");
    r.append(mode);
    r.append("\",\"operator\":\"");
    r.append(operator);
    r.append("\",\"timestamp\":");
    let t = i64_to_decimal(timestamp);
    r.append(t.as_str());
    r.append("}");
    r
}

/// The command that puts the lock screen up.
pub fn lock_screen_message(device_id: &str, reason: &str, timestamp: i64) -> (r: String)
    ensures
        r@ == spec_lock_screen_message(device_id@, reason@, timestamp),
{
    let mut r = String::from_str("{\"type\":\"lock_screen\",\"device_id\":\"");
    r.append(device_id);
    r.append("\",\"reason\":\"");
    r.append(reason);
    r.append("\",\"timestamp\":");
    let t = i64_to_decimal(timestamp);
    r.append(t.as_str());
    r.append("}");
    r
}

/// The command that lifts the lock screen.
pub fn unlock_message(device_id: &str, restore_mode: &str, timestamp: i64) -> (r: String)
    ensures
        r@ == spec_unlock_message(device_id@, restore_mode@, timestamp),
{
    let mut r = String::from_str("{\"type\":\"unlock\",\"device_id\":\"");
    r.append(device_id);
    r.append("\",\"restore_mode\":\"");
    r.append(restore_mode);
    r.append("\",\"timestamp\":");
    let t = i64_to_decimal(timestamp);
    r.append(t.as_str());
    r.append("}");
    r
}

/// The command that starts the admission check-in.
pub fn checkin_trigger_message(device_id: &str, timestamp: i64) -> (r: String)
    ensures
        r@ == spec_checkin_trigger_message(device_id@, timestamp),
{
    let mut r = String::from_str("{\"type\":\"checkin_trigger\",\"device_id\":\"");
    r.append(device_id);
    r.append("\",\"timestamp\":");
    let t = i64_to_decimal(timestamp);
    r.append(t.as_str());
    r.append("}");
    r
}

/// The reason shown on a lock screen: the teacher's, or a default.
pub fn lock_reason(reason: Option<String>) -> (r: String)
    ensures
        reason matches Some(x) ==> r == x,
        reason is None ==> r@ == "Teacher locked this device"@,
{
    match reason {
        Some(x) => x,
        None => String::from_str("Teacher locked this device"),
    }
}

/// Whether an agent may connect: it gave no fingerprint, the server has
/// none yet, or the two match.
pub open spec fn spec_fingerprint_accepted(client: Seq<char>, server: Seq<char>) -> bool {
    client.len() == 0 || server == "pending_init"@ || client == server
}

/// Whether an agent may connect with its teacher fingerprint.
pub fn fingerprint_accepted(client: &str, server: &str) -> (r: bool)
    ensures
        r == spec_fingerprint_accepted(client@, server@),
{
    client.is_empty() || str_eq(server, "pending_init") || str_eq(client, server)
}

/// The message a refused agent receives before the connection closes.
pub fn auth_error_message() -> (r: String)
    ensures
        r@ == "{\"type\":\"auth_error\",\"message\":\"teacher_fingerprint mismatch\"}"@,
{
    String::from_str("{\"type\":\"auth_error\",\"message\":\"teacher_fingerprint mismatch\"}")
}

/// The acknowledgement of a heartbeat.
pub open spec fn heartbeat_ack() -> Seq<char> {
    "{\"type\":\"heartbeat_ack\",\"ack_code\":0,\"message\":\"ok\"}"@
}

/// What a heartbeat changes on the server.
#[derive(Debug)]
pub struct HeartbeatActions {
    /// The device whose last-seen time is refreshed (and whose pending
    /// check-in is re-sent).
    pub device_id: String,
    /// The mode to record for it, when the heartbeat names a known mode.
    pub record_mode: Option<String>,
    /// Whether an exam usage session must exist for it.
    pub ensure_exam_session: bool,
}

/// What a heartbeat with these fields changes: nothing without a device
/// id; otherwise the device is seen, a known mode is recorded, and the
/// exam mode opens an exam session.
pub fn heartbeat_actions(device_id: Option<String>, mode: Option<String>) -> (r: Option<
    HeartbeatActions,
>)
    ensures
        device_id is None ==> r is None,
        device_id matches Some(d) ==> (r matches Some(a) && a.device_id == d && (match mode {
            Some(m) => {
                &&& (is_mode_name(m@) ==> a.record_mode == Some(m))
                &&& (!is_mode_name(m@) ==> a.record_mode is None)
                &&& a.ensure_exam_session == (m@ == "exam"@)
            },
            None => a.record_mode is None && !a.ensure_exam_session,
        })),
{
    let d = match device_id {
        Some(d) => d,
        None => return None,
    };
    match mode {
        Some(m) => {
            let exam = str_eq(m.as_str(), "exam");
            let record = if is_known_mode(m.as_str()) {
                Some(m)
            } else {
                None
            };
            Some(HeartbeatActions { device_id: d, record_mode: record, ensure_exam_session: exam })
        },
        None => Some(HeartbeatActions { device_id: d, record_mode: None, ensure_exam_session: false }),
    }
}

/// The actions for a heartbeat that came as a binary record: the device is
/// seen and its mode, read from the wire value, recorded.
pub fn binary_heartbeat_actions(device_id: String, mode_value: i32) -> (r: HeartbeatActions)
    ensures
        r.device_id == device_id,
        r.record_mode matches Some(m) && m@ == spec_mode_name_of(mode_value),
        !r.ensure_exam_session,
{
    HeartbeatActions {
        device_id,
        record_mode: Some(mode_value_to_str(mode_value)),
        ensure_exam_session: false,
    }
}

/// A frame the server sends to an agent.
#[derive(Debug)]
pub enum ServerFrame {
    Text(String),
    Binary(Vec<u8>),
}

/// A frame that carries `msg` to a connection with session key `key`: sealed
/// when there is a key, falling back as `fallback_text` says when sealing fails.
pub open spec fn sealed_for(frame: ServerFrame, msg: Seq<char>, key: Seq<char>) -> bool {
    frame matches ServerFrame::Binary(b) && valid_session_key(key) && opened_text(
        session_key_bytes(key)->0,
        b@,
    ) == Some(msg)
}

/// The acknowledgement frame: plain text on a connection without a
/// session key; sealed under the key otherwise, or its bare bytes when
/// sealing fails.
pub fn ack_frame(session_key: &str) -> (f: ServerFrame)
    ensures
        session_key@.len() == 0 ==> (f matches ServerFrame::Text(t) && t@ == heartbeat_ack()),
        session_key@.len() > 0 && valid_session_key(session_key@) ==> sealed_for(
            f,
            heartbeat_ack(),
            session_key@,
        ),
        session_key@.len() > 0 && !valid_session_key(session_key@) ==> (f matches ServerFrame::Binary(
            b,
        ) && b@ == encode_utf8(heartbeat_ack())),
{
    let ack = "{\"type\":\"heartbeat_ack\",\"ack_code\":0,\"message\":\"ok\"}";
    if session_key.is_empty() {
        return ServerFrame::Text(String::from_str(ack));
    }
    proof {
        reveal_strlit("{\"type\":\"heartbeat_ack\",\"ack_code\":0,\"message\":\"ok\"}");
        assert(ack@.len() == 52);
        assert(is_ascii_chars(ack@));
        vstd::utf8::is_ascii_chars_encode_utf8(ack@);
    }
    match encrypt_message(ack, session_key) {
        Ok(enc) => ServerFrame::Binary(enc),
        Err(_) => {
            let raw = ack.as_bytes();
            let mut v: Vec<u8> = Vec::new();
            let mut i: usize = 0;
            while i < raw.len()
                invariant
                    i <= raw@.len(),
                    v@ == raw@.take(i as int),
                decreases raw@.len() - i,
            {
                v.push(raw[i]);
                assert(raw@.take(i as int).push(raw@[i as int]) =~= raw@.take(i + 1));
                i += 1;
            }
            assert(raw@.take(raw@.len() as int) =~= raw@);
            ServerFrame::Binary(v)
        },
    }
}

/// Whether a frame is the acknowledgement for a connection with session key
/// `key`, as `ack_frame` makes it.
pub open spec fn is_ack_frame(f: ServerFrame, key: Seq<char>) -> bool {
    &&& key.len() == 0 ==> (f matches ServerFrame::Text(t) && t@ == heartbeat_ack())
    &&& key.len() > 0 && valid_session_key(key) ==> sealed_for(f, heartbeat_ack(), key)
    &&& key.len() > 0 && !valid_session_key(key) ==> (f matches ServerFrame::Binary(b) && b@
        == encode_utf8(heartbeat_ack()))
}

/// The frames sent back for an agent's heartbeat message (plain text, or
/// sealed and opened under the session key): the check-in trigger that was
/// still pending for the device, when there is one, and then exactly one
/// acknowledgement.
pub fn text_frame_replies(pending: Option<ServerFrame>, session_key: &str) -> (r: Vec<
    ServerFrame,
>)
    ensures
        pending is None ==> r@.len() == 1,
        pending matches Some(p) ==> r@.len() == 2 && r@[0] == p,
        r@.len() >= 1 && is_ack_frame(r@[r@.len() - 1], session_key@),
{
    let mut r: Vec<ServerFrame> = Vec::new();
    match pending {
        Some(p) => r.push(p),
        None => {},
    }
    r.push(ack_frame(session_key));
    r
}

/// The check-in command frame for a device, or nothing when it cannot be
/// sealed under the connection's key.
pub fn trigger_frame(device_id: &str, timestamp: i64, session_key: &str) -> (f: Option<ServerFrame>)
    ensures
        session_key@.len() == 0 ==> (f matches Some(ServerFrame::Text(t)) && t@
            == spec_checkin_trigger_message(device_id@, timestamp)),
        session_key@.len() > 0 ==> (f is Some <==> valid_session_key(session_key@) && encode_utf8(
            spec_checkin_trigger_message(device_id@, timestamp),
        ).len() <= MAX_PLAINTEXT_LEN),
        session_key@.len() > 0 ==> (f matches Some(x) ==> sealed_for(
            x,
            spec_checkin_trigger_message(device_id@, timestamp),
            session_key@,
        )),
{
    let msg = checkin_trigger_message(device_id, timestamp);
    if session_key.is_empty() {
        return Some(ServerFrame::Text(msg));
    }
    match encrypt_message(msg.as_str(), session_key) {
        Ok(enc) => Some(ServerFrame::Binary(enc)),
        Err(_) => None,
    }
}

/// The text `String::from_utf8_lossy` makes of a byte string: its UTF-8
/// decoding, with each invalid sequence replaced by U+FFFD.
pub uninterp spec fn utf8_lossy(bytes: Seq<u8>) -> Seq<char>;

/// Lossy UTF-8 decoding (`String::from_utf8_lossy`), named by
/// `utf8_lossy`; valid UTF-8 decodes exactly.
#[verifier::external_body]
fn lossy_text(bytes: &[u8]) -> (r: String)
    ensures
        r@ == utf8_lossy(bytes@),
        valid_utf8(bytes@) ==> r@ == decode_utf8(bytes@),
{
    String::from_utf8_lossy(bytes).into_owned()
}

/// Whether a broadcast carries a binary command: it starts with `proto:`.
pub open spec fn is_proto_broadcast(msg: Seq<char>) -> bool {
    "proto:"@.is_prefix_of(msg)
}

/// The frame that forwards a broadcast to one agent.  A `proto:` broadcast
/// carries base64 bytes: they go out as they are without a session key,
/// or read as text and sealed under the key (dropped if that fails).  Any
/// other broadcast is text: sealed under the key, or sent plain when there
/// is no key or sealing fails.
pub fn broadcast_frame(msg: &str, session_key: &str) -> (f: Option<ServerFrame>)
    requires
        is_proto_broadcast(msg@) ==> base64_readable(msg@.skip(6)),
    ensures
        is_proto_broadcast(msg@) && session_key@.len() == 0 ==> (f matches Some(
            ServerFrame::Binary(b),
        ) && b@ == spec_base64_decode(msg@.skip(6))),
        is_proto_broadcast(msg@) && session_key@.len() > 0 ==> (f matches Some(x) ==> sealed_for(
            x,
            utf8_lossy(spec_base64_decode(msg@.skip(6))),
            session_key@,
        )),
        is_proto_broadcast(msg@) && session_key@.len() > 0 ==> (f is Some <==> valid_session_key(
            session_key@,
        ) && encode_utf8(utf8_lossy(spec_base64_decode(msg@.skip(6)))).len()
            <= MAX_PLAINTEXT_LEN),
        !is_proto_broadcast(msg@) && session_key@.len() == 0 ==> (f matches Some(
            ServerFrame::Text(t),
        ) && t@ == msg@),
        !is_proto_broadcast(msg@) && session_key@.len() > 0 ==> (f matches Some(x) && (sealed_for(
            x,
            msg@,
            session_key@,
        ) || (x matches ServerFrame::Text(t) && t@ == msg@))),
        !is_proto_broadcast(msg@) && session_key@.len() > 0 && valid_session_key(session_key@)
            && encode_utf8(msg@).len() <= MAX_PLAINTEXT_LEN ==> (f matches Some(x) && sealed_for(
            x,
            msg@,
            session_key@,
        )),
{
    if starts_with_str(msg, "proto:") {
        proof {
            reveal_strlit("proto:");
        }
        let cs = chars_of(msg);
        let mut rest_chars: Vec<char> = Vec::new();
        let mut i: usize = 6;
        while i < cs.len()
            invariant
                6 <= i <= cs@.len(),
                cs@ == msg@,
                rest_chars@ == msg@.subrange(6, i as int),
            decreases cs@.len() - i,
        {
            rest_chars.push(cs[i]);
            assert(msg@.subrange(6, i as int).push(msg@[i as int]) =~= msg@.subrange(6, i + 1));
            i += 1;
        }
        let rest = string_of_chars(rest_chars.as_slice());
        assert(rest@ =~= msg@.skip(6));
        let data = match base64_decode(rest.as_str()) {
            Ok(d) => d,
            Err(_) => Vec::new(),
        };
        if session_key.is_empty() {
            return Some(ServerFrame::Binary(data));
        }
        let text = lossy_text(data.as_slice());
        match encrypt_message(text.as_str(), session_key) {
            Ok(enc) => Some(ServerFrame::Binary(enc)),
            Err(_) => None,
        }
    } else {
        if session_key.is_empty() {
            return Some(ServerFrame::Text(String::from_str(msg)));
        }
        match encrypt_message(msg, session_key) {
            Ok(enc) => Some(ServerFrame::Binary(enc)),
            Err(_) => Some(ServerFrame::Text(String::from_str(msg))),
        }
    }
}

/// What a check-in command for a device becomes: sent now to an online
/// device, or kept pending for the next heartbeat of an offline one.
#[derive(Debug, Clone, Copy, PartialEq, Eq, Structural)]
pub enum CheckinDispatch {
    SendNow,
    MarkPending,
}

/// How a check-in command reaches a device.
pub fn checkin_dispatch(online: bool) -> (d: CheckinDispatch)
    ensures
        online ==> d == CheckinDispatch::SendNow,
        !online ==> d == CheckinDispatch::MarkPending,
{
    if online {
        CheckinDispatch::SendNow
    } else {
        CheckinDispatch::MarkPending
    }
}

/// The lower-case hex digit for a value below 16.
pub open spec fn hex_digit_char(v: int) -> char {
    if v < 10 {
        (48 + v) as char
    } else {
        (87 + v) as char
    }
}

/// The lower-case hexadecimal text of a byte string, two digits per byte,
/// high digit first, as `hex::encode` writes it.
pub open spec fn hex_text(b: Seq<u8>) -> Seq<char> {
    Seq::new(
        2 * b.len(),
        |i: int| if i % 2 == 0 {
            hex_digit_char((b[i / 2] as int) / 16)
        } else {
            hex_digit_char((b[i / 2] as int) % 16)
        },
    )
}

/// Thirty-two random bytes (`rand::random`).  Nothing is stated of them.
#[verifier::external_body]
fn random_key_bytes() -> (b: [u8; 32]) {
    rand::random::<[u8; 32]>()
}

/// Hexadecimal encoding (`hex::encode`): lower-case digits, two per byte.
#[verifier::external_body]
fn hex_encode(b: &[u8]) -> (r: String)
    ensures
        r@ == hex_text(b@),
{
    hex::encode(b)
}

/// The key name under which a device's session key is kept.
pub fn session_key_config_name(device_code: &str) -> (r: String)
    ensures
        r@ == "session_key_"@ + device_code@,
{
    let mut r = String::from_str("session_key_");
    r.append(device_code);
    r
}

/// Hexadecimal text is ASCII and decodes back to its bytes.
pub proof fn lemma_hex_round_trip(b: Seq<u8>)
    ensures
        is_hex(encode_utf8(hex_text(b))),
        hex_bytes(encode_utf8(hex_text(b))) == b,
{
    let t = hex_text(b);
    assert forall|i: int| 0 <= i < t.len() implies '\0' <= #[trigger] t[i] <= '\u{7f}' by {
        let v: int = if i % 2 == 0 {
            (b[i / 2] as int) / 16
        } else {
            (b[i / 2] as int) % 16
        };
        assert(0 <= v < 16);
    }
    assert(is_ascii_chars(t));
    vstd::utf8::is_ascii_chars_encode_utf8(t);
    let e = encode_utf8(t);
    assert forall|i: int| 0 <= i < e.len() implies is_hex_digit(#[trigger] e[i]) by {
        assert(e[i] == t[i] as u8);
        let v: int = if i % 2 == 0 {
            (b[i / 2] as int) / 16
        } else {
            (b[i / 2] as int) % 16
        };
        assert(0 <= v < 16);
    }
    assert(e.len() % 2 == 0);
    assert forall|k: int| 0 <= k < b.len() implies #[trigger] hex_bytes(e)[k] == b[k] by {
        assert(e[2 * k] == t[2 * k] as u8);
        assert(e[2 * k + 1] == t[2 * k + 1] as u8);
        assert((2 * k) / 2 == k && (2 * k) % 2 == 0);
        assert((2 * k + 1) / 2 == k && (2 * k + 1) % 2 == 1);
        let hi = (b[k] as int) / 16;
        let lo = (b[k] as int) % 16;
        assert(hi * 16 + lo == b[k]);
    }
    assert(hex_bytes(e) =~= b);
}

/// A fresh session key: 32 random bytes in lower-case hexadecimal.  It is
/// always a key the agents accept.
pub fn generate_session_key() -> (r: String)
    ensures
        valid_session_key(r@),
        exists|b: Seq<u8>| b.len() == 32 && r@ == hex_text(b),
{
    let b = random_key_bytes();
    let r = hex_encode(b.as_slice());
    proof {
        lemma_hex_round_trip(b@);
    }
    r
}

/// The session key a registering device gets: the one kept for it, or a fresh one.
pub fn session_key_or_new(existing: Option<String>) -> (r: String)
    ensures
        existing matches Some(k) ==> r == k,
        existing is None ==> valid_session_key(r@),
{
    match existing {
        Some(k) => k,
        None => generate_session_key(),
    }
}

/// The wire values of the modes are fixed by the protocol: open 0,
/// teaching 1, exam 3, locked 4, and any other name is sent as open.  A
/// value is read as the mode that has it, and any value no mode has is read
/// as open.
pub proof fn lemma_mode_wire_values(mode: Seq<char>, v: i32)
    ensures
        spec_mode_value("open"@) == 0,
        spec_mode_value("teaching"@) == 1,
        spec_mode_value("exam"@) == 3,
        spec_mode_value("locked"@) == 4,
        !(mode == "open"@ || mode == "teaching"@ || mode == "exam"@ || mode == "locked"@)
            ==> spec_mode_value(mode) == 0,
        spec_mode_name_of(0) == "open"@,
        spec_mode_name_of(1) == "teaching"@,
        spec_mode_name_of(3) == "exam"@,
        spec_mode_name_of(4) == "locked"@,
        !(v == 0 || v == 1 || v == 3 || v == 4) ==> spec_mode_name_of(v) == "open"@,
{
    reveal_strlit("open");
    reveal_strlit("teaching");
    reveal_strlit("exam");
    reveal_strlit("locked");
    assert("open"@.len() == 4 && "teaching"@.len() == 8 && "exam"@.len() == 4
        && "locked"@.len() == 6);
    assert("open"@[0] != "exam"@[0]);
}

} // verus!
