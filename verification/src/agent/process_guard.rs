//! Guarding required processes: which policies need their process
//! restarted, and the alerts raised when a restart fails.
use vstd::prelude::*;
use vstd::string::StringExecFns;
use crate::text::{seq_contains, contains_str};
use super::config::{Config, view_or};
pub use super::api::ApiResponse;

verus! {

/// A teacher's rule that a process must keep running on a machine.
#[derive(Debug, Clone)]
pub struct ProcessGuardPolicy {
    pub id: String,
    pub device_id: Option<String>,
    pub process_name: String,
    pub check_interval_seconds: i64,
    pub max_restart_attempts: i64,
    pub enabled: bool,
}

/// A problem with a guarded process, reported to the teacher server.
#[derive(Debug)]
pub struct ProcessAlert {
    pub policy_id: String,
    pub process_name: String,
    pub alert_type: String,
    pub message: String,
}

/// The report of an alert, as sent to the inspection endpoint.
#[derive(Debug)]
pub struct AlertReport {
    pub device_id: String,
    pub inspection_type: String,
    pub item_name: String,
    pub status: String,
    pub description: String,
}

/// The Unicode lower-case form of a string, as `str::to_lowercase` gives it.
pub uninterp spec fn unicode_lowercase(s: Seq<char>) -> Seq<char>;

/// Unicode lower-casing (`str::to_lowercase`), named by `unicode_lowercase`.
#[verifier::external_body]
fn to_lowercase(s: &str) -> (r: String)
    ensures
        r@ == unicode_lowercase(s@),
{
    s.to_lowercase()
}

/// The address policies are fetched from for this machine.
pub fn policy_sync_url(config: &Config) -> (r: String)
    ensures
        r@ == config.teacher_server_url@ + "/api/policies/process-guard/sync"@ + "?device_id="@
            + view_or(config.device_id, Seq::empty()),
{
    let mut r = config.teacher_server_url.clone();
    r.append("/api/policies/process-guard/sync");
    r.append("?device_id=");
    match &config.device_id {
        Some(d) => r.append(d.as_str()),
        None => {},
    }
    r
}

/// The policies in the teacher server's answer: its data when the code is
/// 0 (none if it carried none), and none on any failure.
pub fn policies_from_response(resp: Option<ApiResponse<Vec<ProcessGuardPolicy>>>) -> (r: Vec<
    ProcessGuardPolicy,
>)
    ensures
        (resp matches Some(a) && a.code == 0 && a.data is Some) ==> r == resp->0.data->0,
        !(resp matches Some(a) && a.code == 0 && a.data is Some) ==> r@.len() == 0,
{
    match resp {
        Some(a) => {
            if a.code == 0 {
                match a.data {
                    Some(d) => d,
                    None => Vec::new(),
                }
            } else {
                Vec::new()
            }
        },
        None => Vec::new(),
    }
}

/// Whether a guarded process shows among the running ones: some running
/// process name contains the policy's name.
pub open spec fn process_found(running: Seq<Seq<char>>, name: Seq<char>) -> bool {
    exists|j: int| 0 <= j < running.len() && seq_contains(#[trigger] running[j], name)
}

/// Whether a policy's process must be restarted: the policy is enabled and
/// its process is not running.
pub open spec fn needs_restart(p: ProcessGuardPolicy, running: Seq<Seq<char>>) -> bool {
    p.enabled && !process_found(running, p.process_name@)
}

/// Whether some running process name contains `name`.
fn is_running(running: &Vec<String>, name: &str) -> (r: bool)
    ensures
        r == process_found(running@.map_values(|s: String| s@), name@),
{
    let ghost rv = running@.map_values(|s: String| s@);
    let mut j: usize = 0;
    while j < running.len()
        invariant
            j <= running@.len(),
            rv == running@.map_values(|s: String| s@),
            forall|k: int| 0 <= k < j ==> !seq_contains(#[trigger] rv[k], name@),
        decreases running@.len() - j,
    {
        if contains_str(running[j].as_str(), name) {
            assert(rv[j as int] == running@[j as int]@);
            return true;
        }
        j += 1;
    }
    false
}

/// The positions, in order, of the policies whose process must be restarted.
pub fn policies_to_restart(policies: &Vec<ProcessGuardPolicy>, running: &Vec<String>) -> (r: Vec<
    usize,
>)
    ensures
        forall|k: int| 0 <= k < r@.len() ==> r@[k] < policies@.len(),
        forall|k: int, l: int| 0 <= k < l < r@.len() ==> r@[k] < r@[l],
        forall|i: int|
            0 <= i < policies@.len() ==> (needs_restart(
                #[trigger] policies@[i],
                running@.map_values(|s: String| s@),
            ) <==> r@.contains(i as usize)),
{
    let ghost rv = running@.map_values(|s: String| s@);
    let mut r: Vec<usize> = Vec::new();
    let mut i: usize = 0;
    while i < policies.len()
        invariant
            i <= policies@.len(),
            rv == running@.map_values(|s: String| s@),
            forall|k: int| 0 <= k < r@.len() ==> r@[k] < i,
            forall|k: int, l: int| 0 <= k < l < r@.len() ==> r@[k] < r@[l],
            forall|m: int|
                0 <= m < i ==> (needs_restart(#[trigger] policies@[m], rv) <==> r@.contains(
                    m as usize,
                )),
        decreases policies@.len() - i,
    {
        let p = &policies[i];
        if p.enabled && !is_running(running, p.process_name.as_str()) {
            let ghost before = r@;
            r.push(i);
            proof {
                assert forall|m: int| 0 <= m < i + 1 implies (needs_restart(
                    #[trigger] policies@[m],
                    rv,
                ) <==> r@.contains(m as usize)) by {
                    if m < i {
                        if before.contains(m as usize) {
                            let w = choose|w: int| 0 <= w < before.len() && before[w] == m as usize;
                            assert(r@[w] == m as usize);
                        }
                        if r@.contains(m as usize) {
                            let w = choose|w: int| 0 <= w < r@.len() && r@[w] == m as usize;
                            assert(w < before.len());
                            assert(before[w] == m as usize);
                        }
                    } else {
                        assert(r@[before.len() as int] == i);
                    }
                }
            }
        } else {
            proof {
                assert(!needs_restart(policies@[i as int], rv));
                assert(!r@.contains(i as usize));
            }
        }
        i += 1;
    }
    r
}

/// The alert for a guarded process that could not be restarted.
pub fn restart_failed_alert(policy: &ProcessGuardPolicy, error: &str) -> (a: ProcessAlert)
    ensures
        a.policy_id@ == policy.id@,
        a.process_name@ == policy.process_name@,
        a.alert_type@ == "process_restart_failed"@,
        a.message@ == "进程 "@ + policy.process_name@ + " 重启失败: "@ + error@,
{
    let mut message = String::from_str("进程 ");
    message.append(policy.process_name.as_str());
    message.append(" 重启失败: ");
    message.append(error);
    ProcessAlert {
        policy_id: policy.id.clone(),
        process_name: policy.process_name.clone(),
        alert_type: String::from_str("process_restart_failed"),
        message,
    }
}

/// The alert for the guard process itself when it could not be restarted.
pub fn campus_guard_alert(error: &str) -> (a: ProcessAlert)
    ensures
        a.policy_id@ == "builtin-campus-guard"@,
        a.process_name@ == "campus-guard"@,
        a.alert_type@ == "process_guard"@,
        a.message@ == "campus-guard 重启失败: "@ + error@,
{
    let mut message = String::from_str("campus-guard 重启失败: ");
    message.append(error);
    ProcessAlert {
        policy_id: String::from_str("builtin-campus-guard"),
        process_name: String::from_str("campus-guard"),
        alert_type: String::from_str("process_guard"),
        message,
    }
}

/// The report of an alert from this machine.
pub fn alert_report(config: &Config, alert: &ProcessAlert) -> (r: AlertReport)
    ensures
        r.device_id@ == view_or(config.device_id, Seq::empty()),
        r.inspection_type@ == "process_guard"@,
        r.item_name@ == alert.process_name@,
        r.status@ == "abnormal"@,
        r.description@ == alert.message@,
{
    AlertReport {
        device_id: match &config.device_id {
            Some(d) => d.clone(),
            None => String::new(),
        },
        inspection_type: String::from_str("process_guard"),
        item_name: alert.process_name.clone(),
        status: String::from_str("abnormal"),
        description: alert.message.clone(),
    }
}

/// The task-list filter that selects a process by image name (Windows).
pub fn tasklist_filter(name: &str) -> (r: String)
    ensures
        r@ == "IMAGENAME eq "@ + name@ + ".exe"@,
{
    let mut r = String::from_str("IMAGENAME eq ");
    r.append(name);
    r.append(".exe");
    r
}

/// Whether the task list shows the process: its lower-cased text contains
/// the lower-cased name.
pub fn tasklist_shows(stdout: &str, name: &str) -> (r: bool)
    ensures
        r == seq_contains(unicode_lowercase(stdout@), unicode_lowercase(name@)),
{
    let out = to_lowercase(stdout);
    let n = to_lowercase(name);
    contains_str(out.as_str(), n.as_str())
}

} // verus!
