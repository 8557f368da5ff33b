//! The student's login on this machine: the request, the server's answer,
//! and the login state kept in the configuration.
use vstd::prelude::*;
use vstd::string::StringExecFns;
use super::config::Config;
pub use super::api::ApiResponse;
use super::api::failure_message;

verus! {

/// A login sent to the teacher server.
#[derive(Debug)]
pub struct LoginRequest {
    pub username: String,
    pub password: String,
}

/// The teacher server's answer to a successful login.
#[derive(Debug)]
pub struct LoginResponse {
    pub token: String,
    pub student_id: String,
    pub student_no: String,
    pub name: String,
    pub expires_at: String,
}

/// Whether a student is logged in: both a student id and a token are kept.
pub open spec fn spec_is_logged_in(c: Config) -> bool {
    c.student_id is Some && c.auth_token is Some
}

/// Whether a student is logged in on this machine.
pub fn is_logged_in(config: &Config) -> (r: bool)
    ensures
        r == spec_is_logged_in(*config),
{
    config.student_id.is_some() && config.auth_token.is_some()
}

/// Keeps a login in the configuration; the caller saves it.
pub fn save_login_state(
    config: &mut Config,
    student_id: &str,
    student_no: &str,
    name: &str,
    token: &str,
    expires_at: &str,
)
    ensures
        spec_is_logged_in(*final(config)),
        final(config).student_id matches Some(s) && s@ == student_id@,
        final(config).student_no matches Some(s) && s@ == student_no@,
        final(config).student_name matches Some(s) && s@ == name@,
        final(config).auth_token matches Some(s) && s@ == token@,
        final(config).token_expires_at matches Some(s) && s@ == expires_at@,
        *final(config) == (Config {
            student_id: final(config).student_id,
            student_no: final(config).student_no,
            student_name: final(config).student_name,
            auth_token: final(config).auth_token,
            token_expires_at: final(config).token_expires_at,
            ..*old(config)
        }),
{
    config.student_id = Some(String::from_str(student_id));
    config.student_no = Some(String::from_str(student_no));
    config.student_name = Some(String::from_str(name));
    config.auth_token = Some(String::from_str(token));
    config.token_expires_at = Some(String::from_str(expires_at));
}

/// Forgets the login; the caller saves the configuration.
pub fn clear_login_state(config: &mut Config)
    ensures
        !spec_is_logged_in(*final(config)),
        *final(config) == (Config {
            student_id: None,
            student_no: None,
            student_name: None,
            auth_token: None,
            token_expires_at: None,
            ..*old(config)
        }),
{
    config.student_id = None;
    config.student_no = None;
    config.student_name = None;
    config.auth_token = None;
    config.token_expires_at = None;
}

/// The login request for a user name and password.
pub fn login_request(username: &str, password: &str) -> (r: LoginRequest)
    ensures
        r.username@ == username@,
        r.password@ == password@,
{
    LoginRequest { username: String::from_str(username), password: String::from_str(password) }
}

/// The teacher server's answer to a login: the login when the code is 0
/// and data came with it, else an error.
pub fn login_result(resp: ApiResponse<LoginResponse>) -> (r: Result<LoginResponse, String>)
    ensures
        resp.code == 0 && resp.data is Some ==> r == Ok::<LoginResponse, String>(resp.data->0),
        resp.code == 0 && resp.data is None ==> (r matches Err(e) && e@
            == "Login response missing data"@),
        resp.code != 0 ==> (r matches Err(e) && e@ == "Login failed: "@ + resp.message@),
{
    if resp.code == 0 {
        match resp.data {
            Some(d) => Ok(d),
            None => Err(String::from_str("Login response missing data")),
        }
    } else {
        Err(failure_message("Login failed: ", resp.message.as_str()))
    }
}

} // verus!
