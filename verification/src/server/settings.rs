//! The teacher server's configuration and settings, paging, photo uploads,
//! usage sessions and its discovery answer.
use vstd::prelude::*;
use vstd::string::StringExecFns;
use crate::text::{decimal, signed_decimal, str_eq, trim, trim_str, starts_with_str, i64_to_decimal, u64_to_decimal};

verus! {

/// Where the server listens.
#[derive(Debug, Clone)]
pub struct ServerConfig {
    pub host: String,
    pub port: u16,
}

/// The database the server keeps its records in.
#[derive(Debug, Clone)]
pub struct DatabaseConfig {
    pub driver: String,
    pub url: String,
}

/// The server's security settings.
#[derive(Debug, Clone)]
pub struct SecurityConfig {
    pub fingerprint_seed: String,
    pub aes_key_rotation_days: u32,
}

/// The server's configuration.
#[derive(Debug, Clone)]
pub struct Config {
    pub server: ServerConfig,
    pub database: DatabaseConfig,
    pub security: SecurityConfig,
}

impl Config {
    /// The configuration used with a database address from the
    /// environment: all interfaces, port 8080, SQLite at that address.
    pub fn default_with_db_url(db_url: &str) -> (c: Self)
        ensures
            c.server.host@ == "0.0.0.0"@,
            c.server.port == 8080,
            c.database.driver@ == "sqlite"@,
            c.database.url@ == db_url@,
            c.security.fingerprint_seed@ == "campus-link-2026"@,
            c.security.aes_key_rotation_days == 30,
    {
        Config {
            server: ServerConfig { host: String::from_str("0.0.0.0"), port: 8080 },
            database: DatabaseConfig {
                driver: String::from_str("sqlite"),
                url: String::from_str(db_url),
            },
            security: SecurityConfig {
                fingerprint_seed: String::from_str("campus-link-2026"),
                aes_key_rotation_days: 30,
            },
        }
    }
}

/// Whether a lock password is set.
#[derive(Debug)]
pub struct LockPasswordStatus {
    pub configured: bool,
}

/// A new lock password.
#[derive(Debug)]
pub struct UpdateLockPasswordRequest {
    pub password: String,
}

/// Whether a lock password is set, from the stored value (none when it
/// could not be read).
pub fn lock_password_status(stored: Option<String>) -> (s: LockPasswordStatus)
    ensures
        s.configured == (stored matches Some(v) && v@.len() > 0),
{
    match stored {
        Some(v) => LockPasswordStatus { configured: !v.as_str().is_empty() },
        None => LockPasswordStatus { configured: false },
    }
}

/// Checks a new lock password: it must not be empty.
pub fn validate_lock_password(password: &str) -> (r: Result<(), String>)
    ensures
        r is Ok <==> password@.len() > 0,
        r matches Err(e) ==> e@ == "密码不能为空"@,
{
    if password.is_empty() {
        Err(String::from_str("密码不能为空"))
    } else {
        Ok(())
    }
}

/// The command that gives every agent the new lock password.
pub fn super_pwd_message(password: &str, timestamp: i64) -> (r: String)
    ensures
        r@ == "{\"type\":\"super_pwd\",\"password\":\""@ + password@ + "\",\"timestamp\":"@
            + signed_decimal(timestamp as int) + "}"@,
{
    let mut r = String::from_str("{\"type\":\"super_pwd\",\"password\":\"");
    r.append(password);
    r.append("\",\"timestamp\":");
    let t = i64_to_decimal(timestamp);
    r.append(t.as_str());
    r.append("}");
    r
}

/// The scheduled mode switch.
#[derive(Debug)]
pub struct ScheduleConfig {
    pub enabled: bool,
    pub time: Option<String>,
    pub target_mode: Option<String>,
}

/// A new schedule.
#[derive(Debug)]
pub struct UpdateScheduleRequest {
    pub enabled: bool,
    pub time: Option<String>,
    pub target_mode: Option<String>,
}

/// The schedule from the stored values: on only when stored as `enabled`.
pub fn schedule_config(
    enabled_value: Option<String>,
    time: Option<String>,
    target_mode: Option<String>,
) -> (s: ScheduleConfig)
    ensures
        s.enabled == (enabled_value matches Some(v) && v@ == "enabled"@),
        s.time == time,
        s.target_mode == target_mode,
{
    let enabled = match &enabled_value {
        Some(v) => str_eq(v.as_str(), "enabled"),
        None => false,
    };
    ScheduleConfig { enabled, time, target_mode }
}

/// The stored value for whether the schedule is on.
pub fn schedule_enabled_value(enabled: bool) -> (r: String)
    ensures
        enabled ==> r@ == "enabled"@,
        !enabled ==> r@ == "disabled"@,
{
    if enabled {
        String::from_str("enabled")
    } else {
        String::from_str("disabled")
    }
}

/// Storing a schedule and reading it back gives the same on/off state.
pub proof fn lemma_schedule_round_trip(enabled: bool, stored: Seq<char>)
    requires
        enabled ==> stored == "enabled"@,
        !enabled ==> stored == "disabled"@,
    ensures
        (stored == "enabled"@) == enabled,
{
    reveal_strlit("enabled");
    reveal_strlit("disabled");
    assert("enabled"@.len() == 7 && "disabled"@.len() == 8);
}

/// The filters and page of a log query.
#[derive(Debug)]
pub struct LogQuery {
    pub log_type: Option<String>,
    pub device_id: Option<String>,
    pub date_from: Option<String>,
    pub page: Option<i64>,
    pub page_size: Option<i64>,
}

/// A page of log entries.
#[derive(Debug)]
pub struct LogPageResponse<T> {
    pub total: i64,
    pub page: i64,
    pub page_size: i64,
    pub items: Vec<T>,
}

/// The page asked for: page 1 when absent, never below 1; 20 entries a
/// page when absent, never more than 100.
pub fn log_page(page: Option<i64>, page_size: Option<i64>) -> (r: (i64, i64))
    ensures
        r.0 == (match page {
            Some(p) => if p < 1 {
                1
            } else {
                p
            },
            None => 1,
        }),
        r.1 == (match page_size {
            Some(s) => if s > 100 {
                100
            } else {
                s
            },
            None => 20,
        }),
        r.0 >= 1,
        r.1 <= 100,
{
    let p = match page {
        Some(p) => p,
        None => 1,
    };
    let p = if p < 1 {
        1
    } else {
        p
    };
    let s = match page_size {
        Some(s) => s,
        None => 20,
    };
    let s = if s > 100 {
        100
    } else {
        s
    };
    (p, s)
}

/// The record a photo upload belongs to.
#[derive(Debug)]
pub struct PhotoUploadQuery {
    pub alert_id: Option<i64>,
    pub inspection_id: Option<String>,
    pub description: Option<String>,
}

/// The inspection whose photos are listed.
#[derive(Debug)]
pub struct InspectionPhotoQuery {
    pub inspection_id: Option<String>,
}

/// The largest photo accepted, in bytes (2 MiB).
pub const MAX_PHOTO_BYTES: usize = 2097152;

/// Whether an uploaded part is kept as a photo: an image of at most 2 MiB.
pub fn photo_accepted(content_type: &str, size: usize) -> (r: bool)
    ensures
        r == ("image/"@.is_prefix_of(content_type@) && size <= MAX_PHOTO_BYTES),
{
    starts_with_str(content_type, "image/") && size <= MAX_PHOTO_BYTES
}

/// The content type of an uploaded part, or the generic binary type.
pub fn upload_content_type(content_type: Option<String>) -> (r: String)
    ensures
        content_type is Some ==> r == content_type->0,
        content_type is None ==> r@ == "application/octet-stream"@,
{
    match content_type {
        Some(c) => c,
        None => String::from_str("application/octet-stream"),
    }
}

/// The file name of an uploaded part, or `unknown.bin`.
pub fn upload_file_name(file_name: Option<String>) -> (r: String)
    ensures
        file_name is Some ==> r == file_name->0,
        file_name is None ==> r@ == "unknown.bin"@,
{
    match file_name {
        Some(f) => f,
        None => String::from_str("unknown.bin"),
    }
}

/// The stored name of a photo: a unique prefix, `_`, the uploaded name.
pub fn stored_photo_name(unique: &str, file_name: &str) -> (r: String)
    ensures
        r@ == unique@ + "_"@ + file_name@,
{
    let mut r = String::from_str(unique);
    r.append("_");
    r.append(file_name);
    r
}

/// The answer to an upload in which no photo was kept.
pub fn no_photo_error() -> (r: (i32, String))
    ensures
        r.0 == 400,
        r.1@ == "无有效图片上传"@,
{
    (400, String::from_str("无有效图片上传"))
}

/// How a stored photo is served: shown inline under its id.
pub fn photo_disposition(photo_id: &str) -> (r: String)
    ensures
        r@ == "inline; filename=\""@ + photo_id@ + "\""@,
{
    let mut r = String::from_str("inline; filename=\"");
    r.append(photo_id);
    r.append("\"");
    r
}

/// The device and limit of a hardware query.
#[derive(Debug)]
pub struct HardwareQuery {
    pub device_id: Option<String>,
    pub limit: Option<i64>,
}

/// The device whose snapshot is asked for; a query without one is refused.
pub fn snapshot_device_id(query: &HardwareQuery) -> (r: Result<String, (i32, String)>)
    ensures
        query.device_id matches Some(d) ==> (r matches Ok(x) && x@ == d@),
        query.device_id is None ==> (r matches Err(e) && e.0 == 400 && e.1@
            == "缺少 device_id 参数"@),
{
    match &query.device_id {
        Some(d) => Ok(d.clone()),
        None => Err((400, String::from_str("缺少 device_id 参数"))),
    }
}

/// The answer to a report from a device that is not registered.
pub fn unregistered_device_error() -> (r: (i32, String))
    ensures
        r.0 == 401,
        r.1@ == "设备未注册，请先注册"@,
{
    (401, String::from_str("设备未注册，请先注册"))
}

/// A device's request to end its usage session.
#[derive(Debug)]
pub struct CloseUsageRequest {
    pub device_id: String,
    pub reason: Option<String>,
}

/// What closing a usage session leads to.
#[derive(Debug, Clone, Copy, PartialEq, Eq, Structural)]
pub enum CloseFollowUp {
    /// The teacher's unlock is logged.
    LogTeacherUnlock,
    /// The check-in is triggered again if the device's mode needs it.
    TriggerCheckin,
}

/// Checks a close request: it must name a device.
pub fn validate_close_request(req: &CloseUsageRequest) -> (r: Result<CloseFollowUp, (i32, String)>)
    ensures
        trim(req.device_id@).len() == 0 ==> (r matches Err(e) && e.0 == 400 && e.1@
            == "缺少 device_id"@),
        trim(req.device_id@).len() > 0 ==> (r matches Ok(f) && (f == CloseFollowUp::LogTeacherUnlock
            <==> (req.reason matches Some(x) && x@ == "teacher_unlock"@))),
{
    let t = trim_str(req.device_id.as_str());
    if t.as_str().is_empty() {
        return Err((400, String::from_str("缺少 device_id")));
    }
    let unlock = match &req.reason {
        Some(x) => str_eq(x.as_str(), "teacher_unlock"),
        None => false,
    };
    if unlock {
        Ok(CloseFollowUp::LogTeacherUnlock)
    } else {
        Ok(CloseFollowUp::TriggerCheckin)
    }
}

/// The answer to a discovery broadcast.
pub fn discovery_response(host: &str, port: u16) -> (r: String)
    ensures
        r@ == "{\"host\":\""@ + host@ + "\",\"port\":"@ + decimal(port as nat)
            + ",\"type\":\"campuslink-teacher\",\"version\":\"0.1.0\"}"@,
{
    let mut r = String::from_str("{\"host\":\"");
    r.append(host);
    r.append("\",\"port\":");
    let p = u64_to_decimal(port as u64);
    r.append(p.as_str());
    r.append(",\"type\":\"campuslink-teacher\",\"version\":\"0.1.0\"}");
    r
}

/// Whether a datagram is a discovery request.
pub fn is_discovery_request(msg: &str) -> (r: bool)
    ensures
        r == (trim(msg@) == "CAMPUSLINK_DISCOVER"@),
{
    let t = trim_str(msg);
    str_eq(t.as_str(), "CAMPUSLINK_DISCOVER")
}

/// Whether an IPv4 address may be advertised: it is neither a loopback
/// address (127.0.0.0/8) nor link-local (169.254.0.0/16).
pub open spec fn advertisable(a: [u8; 4]) -> bool {
    a[0] != 127 && !(a[0] == 169 && a[1] == 254)
}

/// An IPv4 address in dotted form.
pub open spec fn dotted(a: [u8; 4]) -> Seq<char> {
    decimal(a[0] as nat) + "."@ + decimal(a[1] as nat) + "."@ + decimal(a[2] as nat) + "."@
        + decimal(a[3] as nat)
}

/// An IPv4 address in dotted form.
fn dotted_text(a: [u8; 4]) -> (r: String)
    ensures
        r@ == dotted(a),
{
    let mut r = u64_to_decimal(a[0] as u64);
    r.append(".");
    let b = u64_to_decimal(a[1] as u64);
    r.append(b.as_str());
    r.append(".");
    let c = u64_to_decimal(a[2] as u64);
    r.append(c.as_str());
    r.append(".");
    let d = u64_to_decimal(a[3] as u64);
    r.append(d.as_str());
    r
}

/// The address the server advertises: the first advertisable IPv4
/// address of its interfaces, or `0.0.0.0`.
pub fn advertised_ip(addrs: &Vec<[u8; 4]>) -> (r: String)
    ensures
        (exists|i: int| 0 <= i < addrs@.len() && advertisable(#[trigger] addrs@[i])) ==> exists|
            i: int,
        |
            0 <= i < addrs@.len() && advertisable(addrs@[i]) && (forall|k: int|
                0 <= k < i ==> !advertisable(#[trigger] addrs@[k])) && r@ == dotted(addrs@[i]),
        (forall|i: int| 0 <= i < addrs@.len() ==> !advertisable(#[trigger] addrs@[i])) ==> r@
            == "0.0.0.0"@,
{
    let mut i: usize = 0;
    while i < addrs.len()
        invariant
            i <= addrs@.len(),
            forall|k: int| 0 <= k < i ==> !advertisable(#[trigger] addrs@[k]),
        decreases addrs@.len() - i,
    {
        let a = addrs[i];
        if a[0] != 127 && !(a[0] == 169 && a[1] == 254) {
            return dotted_text(a);
        }
        i += 1;
    }
    String::from_str("0.0.0.0")
}

} // verus!
