//! Registering this machine with the teacher server: its fingerprint and
//! device code, the request, and what the answer changes in the configuration.
use vstd::prelude::*;
use vstd::string::StringExecFns;
use vstd::utf8::{encode_utf8, decode_utf8, is_char_boundary};
use super::config::Config;
pub use super::api::ApiResponse;
use super::api::failure_message;

verus! {

broadcast use vstd::utf8::group_utf8_lib;

/// The registration sent to the teacher server.
#[derive(Debug)]
pub struct RegisterDeviceRequest {
    pub device_code: String,
    pub machine_fingerprint: String,
    pub hostname: String,
    pub ip_address: String,
    pub mac_address: String,
    pub agent_version: String,
}

/// The teacher server's answer to a registration.
#[derive(Debug)]
pub struct RegisterDeviceResponse {
    pub device_id: String,
    pub teacher_fingerprint: String,
    pub initial_mode: String,
    pub heartbeat_interval_seconds: u32,
    pub session_key: String,
}

/// The Unicode upper-case form of a string, as `str::to_uppercase` gives it.
pub uninterp spec fn unicode_uppercase(s: Seq<char>) -> Seq<char>;

/// Whether a character is a lower-case hexadecimal digit.
pub open spec fn is_lower_hex(c: char) -> bool {
    ('0' <= c && c <= '9') || ('a' <= c && c <= 'f')
}

/// Whether a string is a version-4 UUID in hyphenated lower-case form.
pub open spec fn is_uuid_v4_text(s: Seq<char>) -> bool {
    &&& s.len() == 36
    &&& forall|i: int|
        0 <= i < 36 ==> if i == 8 || i == 13 || i == 18 || i == 23 {
            s[i] == '-'
        } else {
            is_lower_hex(#[trigger] s[i])
        }
    &&& s[14] == '4'
}

/// A fresh random version-4 UUID (`uuid::Uuid::new_v4`) in its hyphenated
/// lower-case form (its `Display`).  Only that form is stated of it.
#[verifier::external_body]
fn new_uuid_v4_text() -> (s: String)
    ensures
        is_uuid_v4_text(s@),
{
    uuid::Uuid::new_v4().to_string()
}

/// Unicode upper-casing (`str::to_uppercase`), named by `unicode_uppercase`.
#[verifier::external_body]
fn to_uppercase(s: &str) -> (r: String)
    ensures
        r@ == unicode_uppercase(s@),
{
    s.to_uppercase()
}

/// The fingerprint a machine registers with, for a given UUID text.
pub fn fingerprint_from_uuid(uuid_text: &str) -> (r: String)
    ensures
        r@ == "fingerprint-"@ + uuid_text@,
{
    let mut r = String::from_str("fingerprint-");
    r.append(uuid_text);
    r
}

/// A fresh machine fingerprint: `fingerprint-` and a random UUID.
pub fn generate_machine_fingerprint() -> (r: String)
    ensures
        exists|u: Seq<char>| is_uuid_v4_text(u) && r@ == "fingerprint-"@ + u,
{
    let u = new_uuid_v4_text();
    fingerprint_from_uuid(u.as_str())
}

/// The device code for a host name: `DEV-` and the upper-cased host name's first eight bytes.
pub open spec fn spec_device_code(hostname: Seq<char>) -> Seq<char> {
    "DEV-"@ + unicode_uppercase(decode_utf8(encode_utf8(hostname).subrange(0, 8)))
}

/// The device code for a host name whose first eight bytes end on a
/// character boundary (the host name is cut there).
pub fn device_code(hostname: &str) -> (r: String)
    requires
        encode_utf8(hostname@).len() >= 8,
        is_char_boundary(encode_utf8(hostname@), 8),
    ensures
        r@ == spec_device_code(hostname@),
{
    let (head, _tail) = hostname.split_at(8);
    proof {
        assert(head@ == decode_utf8(encode_utf8(head@)));
    }
    let up = to_uppercase(head);
    let mut r = String::from_str("DEV-");
    r.append(up.as_str());
    r
}

/// The registration request for this machine's facts.
pub fn registration_request(
    hostname: &str,
    ip_address: &str,
    mac_address: &str,
    machine_fingerprint: &str,
) -> (r: RegisterDeviceRequest)
    requires
        encode_utf8(hostname@).len() >= 8,
        is_char_boundary(encode_utf8(hostname@), 8),
    ensures
        r.device_code@ == spec_device_code(hostname@),
        r.machine_fingerprint@ == machine_fingerprint@,
        r.hostname@ == hostname@,
        r.ip_address@ == ip_address@,
        r.mac_address@ == mac_address@,
        r.agent_version@ == "0.1.0"@,
{
    RegisterDeviceRequest {
        device_code: device_code(hostname),
        machine_fingerprint: String::from_str(machine_fingerprint),
        hostname: String::from_str(hostname),
        ip_address: String::from_str(ip_address),
        mac_address: String::from_str(mac_address),
        agent_version: String::from_str("0.1.0"),
    }
}

/// The teacher server's answer to a registration: the data if it came
/// with any, else the server's message as the error.
pub fn register_result(resp: ApiResponse<RegisterDeviceResponse>) -> (r: Result<
    RegisterDeviceResponse,
    String,
>)
    ensures
        resp.data is Some ==> r == Ok::<RegisterDeviceResponse, String>(resp.data->0),
        resp.data is None ==> (r matches Err(e) && e@ == "Register failed: "@ + resp.message@),
{
    match resp.data {
        Some(d) => Ok(d),
        None => Err(failure_message("Register failed: ", resp.message.as_str())),
    }
}

/// Takes a registration into the configuration; the caller saves it.
pub fn apply_registration(config: &mut Config, response: RegisterDeviceResponse)
    ensures
        *final(config) == (Config {
            device_id: Some(response.device_id),
            teacher_fingerprint: Some(response.teacher_fingerprint),
            current_mode: response.initial_mode,
            heartbeat_interval_seconds: response.heartbeat_interval_seconds as u64,
            session_key: Some(response.session_key),
            ..*old(config)
        }),
{
    config.device_id = Some(response.device_id);
    config.teacher_fingerprint = Some(response.teacher_fingerprint);
    config.current_mode = response.initial_mode;
    config.heartbeat_interval_seconds = response.heartbeat_interval_seconds as u64;
    config.session_key = Some(response.session_key);
}

} // verus!
