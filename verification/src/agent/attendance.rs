//! The admission check-in: when it runs, what the check-in program is
//! launched with, and when its monitor stops relaunching it.
use vstd::prelude::*;
use vstd::string::StringExecFns;
use crate::text::str_eq;
use super::config::{Config, view_or, default_lock_password};
use super::mode::requires_admission;
pub use super::api::ApiResponse;
use super::api::failure_message;

verus! {

/// Exit code of the check-in program when the student checked in.
pub const EXIT_OK: i32 = 0;

/// Exit code of the check-in program when the teacher unlocked it.
pub const EXIT_TEACHER: i32 = 10;

/// A check-in sent to the teacher server.
#[derive(Debug)]
pub struct CheckInRequest {
    pub device_id: String,
    pub student_id: Option<String>,
    pub timestamp: Option<u64>,
}

/// The teacher server's record of a check-in.
#[derive(Debug)]
pub struct CheckInResponse {
    pub record_id: String,
    pub status: String,
}

/// The generation of the admission monitor: starting or stopping a
/// monitor moves it on, and a monitor whose generation is no longer
/// current stops.
pub struct AdmissionGeneration {
    pub current: u64,
}

/// The counter after one step, wrapping as an atomic add does.
pub open spec fn next_generation(g: u64) -> u64 {
    if g == u64::MAX {
        0
    } else {
        (g + 1) as u64
    }
}

impl AdmissionGeneration {
    /// The counter before any monitor ran.
    pub fn new() -> (g: Self)
        ensures
            g.current == 0,
    {
        AdmissionGeneration { current: 0 }
    }

    /// Moves the generation on and returns the new one.
    pub fn advance(&mut self) -> (g: u64)
        ensures
            g == next_generation(old(self).current),
            final(self).current == g,
    {
        self.current = self.current.wrapping_add(1);
        self.current
    }
}

/// Stops any running admission monitor: its generation is no longer
/// current.  The caller also ends the check-in program.
pub fn stop_admission_monitor(generation: &mut AdmissionGeneration)
    ensures
        final(generation).current == next_generation(old(generation).current),
{
    generation.advance();
}

/// Starts a new admission monitor for the configuration's mode, if that mode
/// needs admission, and returns the monitor's generation.  The caller ends
/// any running check-in program and runs the monitor.
pub fn start_admission_monitor(config: &Config, generation: &mut AdmissionGeneration) -> (r: Option<
    u64,
>)
    ensures
        !requires_admission(config.current_mode@) ==> r is None && final(generation).current
            == old(generation).current,
        requires_admission(config.current_mode@) ==> r == Some(
            next_generation(old(generation).current),
        ) && final(generation).current == next_generation(old(generation).current),
{
    let mode = config.current_mode.as_str();
    if !str_eq(mode, "open") && !str_eq(mode, "teaching") {
        return None;
    }
    Some(generation.advance())
}

/// The arguments the check-in program is launched with: server address,
/// device id, mode, and the lock password.
pub fn checkin_arguments(config: &Config) -> (args: Vec<String>)
    ensures
        args@.len() == 4,
        args@[0]@ == config.teacher_server_url@,
        args@[1]@ == view_or(config.device_id, Seq::empty()),
        args@[2]@ == config.current_mode@,
        args@[3]@ == view_or(config.lock_password, default_lock_password()),
{
    let mut args: Vec<String> = Vec::new();
    args.push(config.teacher_server_url.clone());
    args.push(
        match &config.device_id {
            Some(d) => d.clone(),
            None => String::new(),
        },
    );
    args.push(config.current_mode.clone());
    args.push(
        match &config.lock_password {
            Some(p) => p.clone(),
            None => String::from_str("admin123"),
        },
    );
    args
}

/// What happened to one launch of the check-in program.
#[derive(Debug, Clone, Copy, PartialEq, Eq, Structural)]
pub enum CheckinRun {
    /// The program was not found.
    ProgramMissing,
    /// The program could not be started or waited for.
    LaunchFailed,
    /// The program exited, with its exit code if it had one.
    Exited { code: Option<i32> },
}

/// What the admission monitor does next.
#[derive(Debug, Clone, Copy, PartialEq, Eq, Structural)]
pub enum MonitorStep {
    /// A newer monitor took over: stop.
    Cancelled,
    /// The student checked in: stop.
    Completed,
    /// The teacher unlocked the check-in: stop.
    TeacherUnlocked,
    /// Launch the program again after this many seconds.
    RetryAfter { seconds: u64 },
}

/// The monitor's decision after a launch: a superseded monitor stops; exit
/// codes 0 and 10 end admission; a missing program is looked for again
/// after 3 s; anything else relaunches after 1 s.
pub open spec fn spec_monitor_step(current: u64, mine: u64, run: CheckinRun) -> MonitorStep {
    if current != mine {
        MonitorStep::Cancelled
    } else {
        match run {
            CheckinRun::ProgramMissing => MonitorStep::RetryAfter { seconds: 3 },
            CheckinRun::LaunchFailed => MonitorStep::RetryAfter { seconds: 1 },
            CheckinRun::Exited { code } => if code == Some(EXIT_OK) {
                MonitorStep::Completed
            } else if code == Some(EXIT_TEACHER) {
                MonitorStep::TeacherUnlocked
            } else {
                MonitorStep::RetryAfter { seconds: 1 }
            },
        }
    }
}

/// One round of the monitor of generation `mine`: it checks the generation
/// before launching (`before`), launches, and checks it again after the
/// launch (`after`).  A superseded monitor stops without launching;
/// otherwise the launch's result decides as `spec_monitor_step` says.
pub open spec fn spec_monitor_round(mine: u64, o: (u64, CheckinRun, u64)) -> MonitorStep {
    if o.0 != mine {
        MonitorStep::Cancelled
    } else {
        spec_monitor_step(o.2, mine, o.1)
    }
}

/// Whether a round ends the monitor of generation `mine`: a newer
/// generation is current before or after the launch, or the program exited
/// with 0 or 10.
pub open spec fn ends_monitor(mine: u64, o: (u64, CheckinRun, u64)) -> bool {
    ||| o.0 != mine
    ||| o.2 != mine
    ||| o.1 == CheckinRun::Exited { code: Some(EXIT_OK) }
    ||| o.1 == CheckinRun::Exited { code: Some(EXIT_TEACHER) }
}

/// Where the monitor of generation `mine` stops, given what its rounds
/// observe in turn: the index of the round and the final step, or `None`
/// when it keeps relaunching through all of them.
pub open spec fn spec_monitor_outcome(mine: u64, obs: Seq<(u64, CheckinRun, u64)>) -> Option<
    (int, MonitorStep),
>
    decreases obs.len(),
{
    if obs.len() == 0 {
        None
    } else {
        let s = spec_monitor_round(mine, obs[0]);
        if s is RetryAfter {
            match spec_monitor_outcome(mine, obs.drop_first()) {
                Some((i, t)) => Some((i + 1, t)),
                None => None,
            }
        } else {
            Some((0, s))
        }
    }
}

/// The repeated admission monitor of generation `mine` (the generation
/// `start_admission_monitor` returned, one past the counter before it,
/// wrapping as the counter does): it relaunches the check-in program after
/// every round that ends nothing, and stops exactly at the first round that
/// does, with `Cancelled` when a newer generation is current, `Completed` on
/// exit 0 and `TeacherUnlocked` on exit 10.  When no round ends it, it is
/// still relaunching.
pub proof fn lemma_monitor_stops_at_first_end(mine: u64, obs: Seq<(u64, CheckinRun, u64)>)
    ensures
        match spec_monitor_outcome(mine, obs) {
            Some((i, s)) => {
                &&& 0 <= i < obs.len()
                &&& ends_monitor(mine, obs[i])
                &&& forall|j: int| 0 <= j < i ==> !ends_monitor(mine, #[trigger] obs[j])
                &&& s == (if obs[i].0 != mine || obs[i].2 != mine {
                    MonitorStep::Cancelled
                } else if obs[i].1 == (CheckinRun::Exited { code: Some(EXIT_OK) }) {
                    MonitorStep::Completed
                } else {
                    MonitorStep::TeacherUnlocked
                })
            },
            None => forall|j: int| 0 <= j < obs.len() ==> !ends_monitor(mine, #[trigger] obs[j]),
        },
        forall|j: int|
            0 <= j < obs.len() && !ends_monitor(mine, #[trigger] obs[j]) ==> spec_monitor_round(
                mine,
                obs[j],
            ) is RetryAfter,
    decreases obs.len(),
{
    if obs.len() > 0 {
        let rest = obs.drop_first();
        lemma_monitor_stops_at_first_end(mine, rest);
        assert forall|j: int| 0 < j < obs.len() implies obs[j] == rest[j - 1] by {}
    }
}

/// The monitor's decision after a launch.
pub fn monitor_step(generation: &AdmissionGeneration, mine: u64, run: CheckinRun) -> (step:
    MonitorStep)
    ensures
        step == spec_monitor_step(generation.current, mine, run),
{
    if generation.current != mine {
        return MonitorStep::Cancelled;
    }
    match run {
        CheckinRun::ProgramMissing => MonitorStep::RetryAfter { seconds: 3 },
        CheckinRun::LaunchFailed => MonitorStep::RetryAfter { seconds: 1 },
        CheckinRun::Exited { code } => match code {
            Some(c) => if c == EXIT_OK {
                MonitorStep::Completed
            } else if c == EXIT_TEACHER {
                MonitorStep::TeacherUnlocked
            } else {
                MonitorStep::RetryAfter { seconds: 1 }
            },
            None => MonitorStep::RetryAfter { seconds: 1 },
        },
    }
}

/// Whether the monitor checks, before launching, that it is still current.
pub fn monitor_is_current(generation: &AdmissionGeneration, mine: u64) -> (r: bool)
    ensures
        r == (generation.current == mine),
{
    generation.current == mine
}

/// The check-in this machine sends at `timestamp`.
pub fn check_in_request(config: &Config, timestamp: u64) -> (r: CheckInRequest)
    ensures
        r.device_id@ == view_or(config.device_id, Seq::empty()),
        r.student_id == config.student_id,
        r.timestamp == Some(timestamp),
{
    CheckInRequest {
        device_id: match &config.device_id {
            Some(d) => d.clone(),
            None => String::new(),
        },
        student_id: super::config::clone_opt(&config.student_id),
        timestamp: Some(timestamp),
    }
}

/// The teacher server's answer to a check-in: its record when the code is
/// 0, else the server's message as the error.
pub fn check_in_result(resp: ApiResponse<CheckInResponse>) -> (r: Result<CheckInResponse, String>)
    requires
        resp.code == 0 ==> resp.data is Some,
    ensures
        resp.code == 0 ==> r == Ok::<CheckInResponse, String>(resp.data->0),
        resp.code != 0 ==> (r matches Err(e) && e@ == "Check-in failed: "@ + resp.message@),
{
    if resp.code == 0 {
        match resp.data {
            Some(d) => Ok(d),
            None => Err(String::new()),
        }
    } else {
        Err(failure_message("Check-in failed: ", resp.message.as_str()))
    }
}

/// Starting a monitor supersedes every earlier one: after a start (or a
/// stop), no earlier generation is current, so its monitor is cancelled.
pub proof fn lemma_new_generation_cancels_old(current: u64, run: CheckinRun)
    ensures
        spec_monitor_step(next_generation(current), current, run) == MonitorStep::Cancelled,
{
}

} // verus!
