//! The check-in window's state machine: identity, first-login password
//! change, inspection and submission, and the teacher's unlock.
//!
//! Work that talks to the network runs elsewhere: a step that needs it
//! returns a `Job`, and the job's result comes back through `apply_worker`.
use vstd::prelude::*;
use vstd::string::{StrSliceExecFns, StringExecFns};
use crate::text::{trim, trim_str, str_eq, decimal, u64_to_decimal, seq_contains, contains_str};
use super::inspect::{InspectionItem, InspectionReport, copy_items};

verus! {

/// Exit code: the student checked in.
pub const EXIT_OK: i32 = 0;

/// Exit code: the window was closed; the monitor relaunches it.
pub const EXIT_RETRY: i32 = 1;

/// Exit code: the program was started with too few arguments.
pub const EXIT_USAGE: i32 = 2;

/// Exit code: the teacher unlocked the machine.
pub const EXIT_TEACHER: i32 = 10;

/// How a student identifies: a name in open mode, a login in teaching mode.
#[derive(Debug, Clone, Copy, PartialEq, Eq, Structural)]
pub enum Mode {
    Open,
    Teaching,
}

/// The window's current step.
#[derive(Debug, Clone, Copy, PartialEq, Eq, Structural)]
pub enum Stage {
    Identity,
    ChangePassword,
    Inspect,
}

/// The result of a piece of background work.
#[derive(Debug)]
pub enum WorkerResult {
    IdentityOk { student_id: String },
    NeedPasswordChange { student_id: String },
    Inspected(InspectionReport),
    CheckedIn(String),
}

/// Background work the window asks for.
#[derive(Debug)]
pub enum Job {
    /// Work whose result is already known; deliver it.
    Decided(Result<WorkerResult, String>),
    /// Log the student in with the teacher server.
    StudentLogin { server_url: String, student_no: String, password: String },
    /// Replace the student's initial password.
    ChangePassword {
        server_url: String,
        student_id: String,
        old_password: String,
        new_password: String,
    },
    /// Inspect the machine.
    Inspect { server_url: String, device_id: String },
    /// Submit the check-in.
    Submit {
        server_url: String,
        device_id: String,
        student_id: String,
        items: Vec<InspectionItem>,
        is_abnormal: bool,
    },
}

/// What follows a delivered result.
#[derive(Debug)]
pub enum WorkerFollowUp {
    /// Nothing more.
    Idle,
    /// Start this job.
    Run(Job),
    /// The student checked in: end the program with `EXIT_OK`.
    ExitCheckedIn,
}

/// How a status message is shown.
#[derive(Debug, Clone, Copy, PartialEq, Eq, Structural)]
pub enum Tone {
    Success,
    Warning,
    Muted,
    Danger,
}

/// The check-in window's state.
pub struct CheckinApp {
    pub mode: Mode,
    pub stage: Stage,
    pub server_url: String,
    pub device_id: String,
    pub lock_password: String,
    pub name_input: String,
    pub student_no_input: String,
    pub password_input: String,
    pub new_password_input: String,
    pub pending_student_id: String,
    pub identity_student_id: String,
    pub message: String,
    pub busy: bool,
    pub inspect_items: Vec<InspectionItem>,
    pub inspect_error: String,
    pub inspect_fail_count: u32,
    pub is_abnormal: bool,
    pub teacher_input: String,
    pub show_teacher: bool,
    pub teacher_attempts: u32,
    pub ime_on: bool,
    pub submitted: bool,
}

/// Whether the student may go on to the desktop: nothing is running, the
/// check-in was not yet submitted, and the inspection gave items or failed twice.
pub open spec fn spec_can_enter(a: CheckinApp) -> bool {
    !a.busy && !a.submitted && (a.inspect_items@.len() > 0 || a.inspect_fail_count >= 2)
}

/// The window with `busy` set and a new message.
pub open spec fn spec_started(a: CheckinApp, message: String) -> CheckinApp {
    CheckinApp { busy: true, message, ..a }
}

/// The window's reply to a server answer: success when the code is 0,
/// else the server's message, or `default_error` when it gave none.
pub open spec fn spec_server_reply(code: Option<i64>, message: Option<String>, default_error: Seq<
    char,
>) -> Result<(), Seq<char>> {
    if code == Some(0i64) {
        Ok(())
    } else {
        match message {
            Some(m) => Err(m@),
            None => Err(default_error),
        }
    }
}

/// The reply to a server answer.
pub fn server_reply(code: Option<i64>, message: Option<String>, default_error: &str) -> (r: Result<
    (),
    String,
>)
    ensures
        r is Ok <==> spec_server_reply(code, message, default_error@) is Ok,
        r matches Err(e) ==> spec_server_reply(code, message, default_error@) == Err::<(), Seq<char>>(e@),
{
    match code {
        Some(c) => if c == 0 {
            return Ok(());
        },
        None => {},
    }
    match message {
        Some(m) => Err(m),
        None => Err(String::from_str(default_error)),
    }
}

/// The outcome of a student login answer: with code 0 the student id
/// (empty if missing) must be present, and the student goes on, or first
/// changes the initial password when none was set; otherwise the server's
/// message, or `验证失败`.
pub fn student_login_outcome(
    code: Option<i64>,
    student_id: Option<String>,
    password_set: Option<bool>,
    message: Option<String>,
) -> (r: Result<WorkerResult, String>)
    ensures
        code != Some(0i64) ==> (r matches Err(e) && Err::<(), Seq<char>>(e@) == spec_server_reply(
            code,
            message,
            "验证失败"@,
        )),
        code == Some(0i64) && (student_id is None || student_id->0@.len() == 0) ==> (r matches Err(
            e,
        ) && e@ == "登录响应缺少学生 ID"@),
        code == Some(0i64) && student_id is Some && student_id->0@.len() > 0 ==> {
            let s = student_id->0;
            &&& password_set == Some(true) ==> (r matches Ok(
                WorkerResult::IdentityOk { student_id: t },
            ) && t@ == s@)
            &&& password_set != Some(true) ==> (r matches Ok(
                WorkerResult::NeedPasswordChange { student_id: t },
            ) && t@ == s@)
        },
{
    match server_reply(code, message, "验证失败") {
        Err(e) => Err(e),
        Ok(()) => {
            let sid = match student_id {
                Some(s) => s,
                None => String::new(),
            };
            if sid.as_str().is_empty() {
                return Err(String::from_str("登录响应缺少学生 ID"));
            }
            let set = match password_set {
                Some(b) => b,
                None => false,
            };
            if set {
                Ok(WorkerResult::IdentityOk { student_id: sid })
            } else {
                Ok(WorkerResult::NeedPasswordChange { student_id: sid })
            }
        },
    }
}

/// After the password was replaced the student goes on as identified.
pub fn password_change_outcome(student_id: String, reply: Result<(), String>) -> (r: Result<
    WorkerResult,
    String,
>)
    ensures
        reply is Ok ==> (r matches Ok(WorkerResult::IdentityOk { student_id: t }) && t
            == student_id),
        reply matches Err(e) ==> (r matches Err(f) && f == e),
{
    match reply {
        Ok(()) => Ok(WorkerResult::IdentityOk { student_id }),
        Err(e) => Err(e),
    }
}

/// The result of a check-in answer: `签到成功`, or the server's message, or `签到失败`.
pub fn checkin_outcome(code: Option<i64>, message: Option<String>) -> (r: Result<
    WorkerResult,
    String,
>)
    ensures
        code == Some(0i64) ==> (r matches Ok(WorkerResult::CheckedIn(m)) && m@ == "签到成功"@),
        code != Some(0i64) ==> (r matches Err(e) && Err::<(), Seq<char>>(e@) == spec_server_reply(
            code,
            message,
            "签到失败"@,
        )),
{
    match server_reply(code, message, "签到失败") {
        Ok(()) => Ok(WorkerResult::CheckedIn(String::from_str("签到成功"))),
        Err(e) => Err(e),
    }
}

/// The program's arguments: server address, device id, mode, and an
/// optional lock password (`admin123` when absent); `None` when too few.
pub fn checkin_args(args: &Vec<String>) -> (r: Option<(String, String, Mode, String)>)
    ensures
        args@.len() < 4 ==> r is None,
        args@.len() >= 4 ==> (r matches Some((s, d, m, p)) && s@ == args@[1]@ && d@ == args@[2]@
            && m == (if args@[3]@ == "teaching"@ {
            Mode::Teaching
        } else {
            Mode::Open
        }) && p@ == (if args@.len() >= 5 {
            args@[4]@
        } else {
            "admin123"@
        })),
{
    if args.len() < 4 {
        return None;
    }
    let mode = if str_eq(args[3].as_str(), "teaching") {
        Mode::Teaching
    } else {
        Mode::Open
    };
    let password = if args.len() >= 5 {
        args[4].clone()
    } else {
        String::from_str("admin123")
    };
    Some((args[1].clone(), args[2].clone(), mode, password))
}

/// What pressing on at the identity step does to an idle window: it turns
/// busy with a checking message, and in open mode decides on the name at
/// once, in teaching mode hands the student number and password to the
/// server (or refuses when either is blank).
pub open spec fn spec_identity_started(o: CheckinApp, f: CheckinApp, job: Option<Job>) -> bool {
    &&& f == spec_started(o, f.message)
    &&& f.message@ == "正在验证身份..."@
    &&& o.mode == Mode::Open ==> if trim(o.name_input@).len() == 0 {
        job matches Some(Job::Decided(Err(e))) && e@ == "请输入使用者姓名"@
    } else {
        job matches Some(Job::Decided(Ok(WorkerResult::IdentityOk { student_id })))
            && student_id@ == trim(o.name_input@)
    }
    &&& o.mode == Mode::Teaching ==> if trim(o.student_no_input@).len() == 0
        || o.password_input@.len() == 0 {
        job matches Some(Job::Decided(Err(e))) && e@ == "请输入学号和密码"@
    } else {
        job matches Some(Job::StudentLogin { server_url, student_no, password })
            && server_url == o.server_url && student_no == o.student_no_input && password
            == o.password_input
    }
}

/// What pressing on at the password step does to an idle window: a new
/// password of fewer than 4 characters is refused with a message; otherwise the window
/// turns busy and hands the change to the server.
pub open spec fn spec_password_change_started(o: CheckinApp, f: CheckinApp, job: Option<Job>) -> bool {
    if o.new_password_input@.len() < 4 {
        &&& job is None
        &&& f.message@ == "新密码长度不得少于 4 位"@
        &&& f == (CheckinApp { message: f.message, ..o })
    } else {
        &&& f == spec_started(o, f.message)
        &&& f.message@ == "正在修改密码..."@
        &&& job matches Some(
            Job::ChangePassword { server_url, student_id, old_password, new_password },
        )
        &&& server_url == o.server_url
        &&& student_id == o.pending_student_id
        &&& old_password == o.password_input
        &&& new_password == o.new_password_input
    }
}

/// What submitting does to an idle window that has not submitted yet: it
/// turns busy and submitted, and hands the inspection to the server.
pub open spec fn spec_submit_started(o: CheckinApp, f: CheckinApp, job: Option<Job>) -> bool {
    &&& f == (CheckinApp { busy: true, submitted: true, message: f.message, ..o })
    &&& f.message@ == "正在提交签到..."@
    &&& job matches Some(Job::Submit { server_url, device_id, student_id, items, is_abnormal })
    &&& server_url == o.server_url
    &&& device_id == o.device_id
    &&& student_id == o.identity_student_id
    &&& items@ == o.inspect_items@
    &&& is_abnormal == (o.is_abnormal || o.inspect_error@.len() > 0)
}

impl CheckinApp {
    /// A fresh window at the identity step.
    pub fn new(mode: Mode, server_url: String, device_id: String, lock_password: String) -> (a:
        Self)
        ensures
            a.mode == mode,
            a.stage == Stage::Identity,
            a.server_url == server_url,
            a.device_id == device_id,
            a.lock_password == lock_password,
            a.name_input@.len() == 0,
            a.student_no_input@.len() == 0,
            a.password_input@.len() == 0,
            a.new_password_input@.len() == 0,
            a.pending_student_id@.len() == 0,
            a.identity_student_id@.len() == 0,
            a.message@.len() == 0,
            !a.busy,
            a.inspect_items@.len() == 0,
            a.inspect_error@.len() == 0,
            a.inspect_fail_count == 0,
            !a.is_abnormal,
            a.teacher_input@.len() == 0,
            !a.show_teacher,
            a.teacher_attempts == 0,
            !a.ime_on,
            !a.submitted,
    {
        CheckinApp {
            mode,
            stage: Stage::Identity,
            server_url,
            device_id,
            lock_password,
            name_input: String::new(),
            student_no_input: String::new(),
            password_input: String::new(),
            new_password_input: String::new(),
            pending_student_id: String::new(),
            identity_student_id: String::new(),
            message: String::new(),
            busy: false,
            inspect_items: Vec::new(),
            inspect_error: String::new(),
            inspect_fail_count: 0,
            is_abnormal: false,
            teacher_input: String::new(),
            show_teacher: false,
            teacher_attempts: 0,
            ime_on: false,
            submitted: false,
        }
    }

    /// Whether the student may go on to the desktop.
    pub fn can_enter_desktop(&self) -> (r: bool)
        ensures
            r == spec_can_enter(*self),
    {
        !self.busy && !self.submitted && (self.inspect_items.len() > 0 || self.inspect_fail_count
            >= 2)
    }

    /// Checks the identity entered: a name in open mode (decided here), a
    /// student number and password in teaching mode (checked by the server).
    pub fn start_identity(&mut self) -> (job: Option<Job>)
        ensures
            old(self).busy ==> job is None && *final(self) == *old(self),
            !old(self).busy ==> spec_identity_started(*old(self), *final(self), job),
    {
        if self.busy {
            return None;
        }
        self.busy = true;
        self.message = String::from_str("正在验证身份...");
        match self.mode {
            Mode::Open => {
                let name = trim_str(self.name_input.as_str());
                if name.as_str().is_empty() {
                    Some(Job::Decided(Err(String::from_str("请输入使用者姓名"))))
                } else {
                    Some(Job::Decided(Ok(WorkerResult::IdentityOk { student_id: name })))
                }
            },
            Mode::Teaching => {
                let no = trim_str(self.student_no_input.as_str());
                if no.as_str().is_empty() || self.password_input.as_str().is_empty() {
                    Some(Job::Decided(Err(String::from_str("请输入学号和密码"))))
                } else {
                    Some(
                        Job::StudentLogin {
                            server_url: self.server_url.clone(),
                            student_no: self.student_no_input.clone(),
                            password: self.password_input.clone(),
                        },
                    )
                }
            },
        }
    }

    /// Replaces the initial password with the one entered, if it is at
    /// least four characters long.
    pub fn start_change_password(&mut self) -> (job: Option<Job>)
        ensures
            old(self).busy ==> job is None && *final(self) == *old(self),
            !old(self).busy ==> spec_password_change_started(*old(self), *final(self), job),
    {
        if self.busy {
            return None;
        }
        if self.new_password_input.as_str().unicode_len() < 4 {
            self.message = String::from_str("新密码长度不得少于 4 位");
            return None;
        }
        self.busy = true;
        self.message = String::from_str("正在修改密码...");
        Some(
            Job::ChangePassword {
                server_url: self.server_url.clone(),
                student_id: self.pending_student_id.clone(),
                old_password: self.password_input.clone(),
                new_password: self.new_password_input.clone(),
            },
        )
    }

    /// Inspects the machine.
    pub fn start_inspect(&mut self) -> (job: Option<Job>)
        ensures
            old(self).busy ==> job is None && *final(self) == *old(self),
            !old(self).busy ==> {
                &&& *final(self) == spec_started(*old(self), final(self).message)
                &&& final(self).message@ == "正在采集环境与设备信息..."@
                &&& job matches Some(Job::Inspect { server_url, device_id })
                &&& server_url == old(self).server_url
                &&& device_id == old(self).device_id
            },
    {
        if self.busy {
            return None;
        }
        self.busy = true;
        self.message = String::from_str("正在采集环境与设备信息...");
        Some(Job::Inspect { server_url: self.server_url.clone(), device_id: self.device_id.clone() })
    }

    /// Submits the check-in, once: abnormal if the inspection found an
    /// abnormal item or failed.
    pub fn start_submit(&mut self) -> (job: Option<Job>)
        ensures
            old(self).busy || old(self).submitted ==> job is None && *final(self) == *old(self),
            !old(self).busy && !old(self).submitted ==> spec_submit_started(
                *old(self),
                *final(self),
                job,
            ),
    {
        if self.busy || self.submitted {
            return None;
        }
        let items = copy_items(&self.inspect_items);
        let is_abnormal = self.is_abnormal || !self.inspect_error.as_str().is_empty();
        self.busy = true;
        self.submitted = true;
        self.message = String::from_str("正在提交签到...");
        Some(
            Job::Submit {
                server_url: self.server_url.clone(),
                device_id: self.device_id.clone(),
                student_id: self.identity_student_id.clone(),
                items,
                is_abnormal,
            },
        )
    }

    /// Checks the teacher's password: the right (non-empty) one unlocks the
    /// machine (the caller closes the session and exits with
    /// `EXIT_TEACHER`); a wrong one is counted and cleared.
    pub fn try_teacher_unlock(&mut self) -> (unlocked: bool)
        requires
            old(self).teacher_attempts < u32::MAX,
        ensures
            unlocked == (old(self).teacher_input@ == old(self).lock_password@
                && old(self).lock_password@.len() > 0),
            unlocked ==> *final(self) == *old(self),
            !unlocked ==> {
                &&& final(self).teacher_attempts == old(self).teacher_attempts + 1
                &&& final(self).teacher_input@.len() == 0
                &&& final(self).message@ == "教师密码错误，已尝试 "@ + decimal(
                    final(self).teacher_attempts as nat,
                ) + " 次"@
                &&& *final(self) == (CheckinApp {
                    teacher_attempts: final(self).teacher_attempts,
                    teacher_input: final(self).teacher_input,
                    message: final(self).message,
                    ..*old(self)
                })
            },
    {
        if str_eq(self.teacher_input.as_str(), self.lock_password.as_str())
            && !self.lock_password.as_str().is_empty() {
            return true;
        }
        self.teacher_attempts = self.teacher_attempts + 1;
        self.teacher_input = String::new();
        let mut m = String::from_str("教师密码错误，已尝试 ");
        let n = u64_to_decimal(self.teacher_attempts as u64);
        m.append(n.as_str());
        m.append(" 次");
        self.message = m;
        false
    }

    /// Takes in the result of background work and says what follows.
    pub fn apply_worker(&mut self, result: Result<WorkerResult, String>) -> (next: WorkerFollowUp)
        requires
            old(self).inspect_fail_count < u32::MAX,
        ensures
            !final(self).busy || (next matches WorkerFollowUp::Run(Job::Inspect { .. })),
            match result {
                Ok(WorkerResult::IdentityOk { student_id }) => {
                    &&& final(self).identity_student_id == student_id
                    &&& final(self).stage == Stage::Inspect
                    &&& final(self).busy
                    &&& final(self).message@ == "正在采集环境与设备信息..."@
                    &&& next matches WorkerFollowUp::Run(Job::Inspect { server_url, device_id })
                    &&& server_url == old(self).server_url
                    &&& device_id == old(self).device_id
                    &&& *final(self) == (CheckinApp {
                        identity_student_id: final(self).identity_student_id,
                        stage: Stage::Inspect,
                        busy: true,
                        message: final(self).message,
                        ..*old(self)
                    })
                },
                Ok(WorkerResult::NeedPasswordChange { student_id }) => {
                    &&& next is Idle
                    &&& final(self).pending_student_id == student_id
                    &&& final(self).message@ == "首次签到，请设置新密码"@
                    &&& *final(self) == (CheckinApp {
                        pending_student_id: final(self).pending_student_id,
                        stage: Stage::ChangePassword,
                        busy: false,
                        message: final(self).message,
                        ..*old(self)
                    })
                },
                Ok(WorkerResult::Inspected(report)) => next is Idle && match report.error {
                    Some(err) => {
                        &&& final(self).inspect_fail_count == old(self).inspect_fail_count + 1
                        &&& final(self).inspect_error == err
                        &&& final(self).message@ == "检查采集失败："@ + err@
                        &&& *final(self) == (CheckinApp {
                            inspect_fail_count: final(self).inspect_fail_count,
                            inspect_error: final(self).inspect_error,
                            is_abnormal: true,
                            busy: false,
                            message: final(self).message,
                            ..*old(self)
                        })
                    },
                    None => {
                        &&& final(self).inspect_error@.len() == 0
                        &&& final(self).inspect_items == report.items
                        &&& final(self).message@ == (if report.is_abnormal {
                            "检查存在异常项，仍可提交签到进入桌面"@
                        } else {
                            "检查完成，请确认后提交签到"@
                        })
                        &&& *final(self) == (CheckinApp {
                            inspect_error: final(self).inspect_error,
                            inspect_items: final(self).inspect_items,
                            is_abnormal: report.is_abnormal,
                            busy: false,
                            message: final(self).message,
                            ..*old(self)
                        })
                    },
                },
                Ok(WorkerResult::CheckedIn(_)) => next is ExitCheckedIn && *final(self) == (
                CheckinApp { busy: false, ..*old(self) }),
                Err(e) => next is Idle && *final(self) == (CheckinApp {
                    busy: false,
                    message: e,
                    submitted: false,
                    ..*old(self)
                }),
            },
    {
        self.busy = false;
        match result {
            Ok(WorkerResult::IdentityOk { student_id }) => {
                self.identity_student_id = student_id;
                self.stage = Stage::Inspect;
                self.message = String::new();
                match self.start_inspect() {
                    Some(job) => WorkerFollowUp::Run(job),
                    None => WorkerFollowUp::Idle,
                }
            },
            Ok(WorkerResult::NeedPasswordChange { student_id }) => {
                self.pending_student_id = student_id;
                self.stage = Stage::ChangePassword;
                self.message = String::from_str("首次签到，请设置新密码");
                WorkerFollowUp::Idle
            },
            Ok(WorkerResult::Inspected(report)) => {
                match report.error {
                    Some(err) => {
                        self.inspect_fail_count = self.inspect_fail_count + 1;
                        let mut m = String::from_str("检查采集失败：");
                        m.append(err.as_str());
                        self.inspect_error = err;
                        self.is_abnormal = true;
                        self.message = m;
                    },
                    None => {
                        self.inspect_error = String::new();
                        self.inspect_items = report.items;
                        self.is_abnormal = report.is_abnormal;
                        self.message = if self.is_abnormal {
                            String::from_str("检查存在异常项，仍可提交签到进入桌面")
                        } else {
                            String::from_str("检查完成，请确认后提交签到")
                        };
                    },
                }
                WorkerFollowUp::Idle
            },
            Ok(WorkerResult::CheckedIn(_)) => WorkerFollowUp::ExitCheckedIn,
            Err(e) => {
                self.message = e;
                self.submitted = false;
                WorkerFollowUp::Idle
            },
        }
    }

    /// The Enter key: moves the current step on, unless work is running;
    /// at the inspection step only when the desktop may be entered.
    pub fn on_enter(&mut self) -> (job: Option<Job>)
        ensures
            old(self).busy ==> job is None && *final(self) == *old(self),
            !old(self).busy ==> match old(self).stage {
                Stage::Identity => spec_identity_started(*old(self), *final(self), job),
                Stage::ChangePassword => spec_password_change_started(
                    *old(self),
                    *final(self),
                    job,
                ),
                Stage::Inspect => if spec_can_enter(*old(self)) {
                    spec_submit_started(*old(self), *final(self), job)
                } else {
                    job is None && *final(self) == *old(self)
                },
            },
    {
        if self.busy {
            return None;
        }
        match self.stage {
            Stage::Identity => self.start_identity(),
            Stage::ChangePassword => self.start_change_password(),
            Stage::Inspect => {
                if self.can_enter_desktop() {
                    self.start_submit()
                } else {
                    None
                }
            },
        }
    }

    /// The line under the title for the current step.
    pub fn subtitle(&self) -> (s: String)
        ensures
            s@ == match (self.stage, self.mode) {
                (Stage::Identity, Mode::Open) => "开放模式：请填写使用者姓名"@,
                (Stage::Identity, Mode::Teaching) => "授课模式：请使用学号登录"@,
                (Stage::ChangePassword, _) => "首次签到，请设置新密码"@,
                (Stage::Inspect, _) => "环境与设备检查完成后，确认结果并进入桌面"@,
            },
    {
        match self.stage {
            Stage::Identity => match self.mode {
                Mode::Open => String::from_str("开放模式：请填写使用者姓名"),
                Mode::Teaching => String::from_str("授课模式：请使用学号登录"),
            },
            Stage::ChangePassword => String::from_str("首次签到，请设置新密码"),
            Stage::Inspect => String::from_str("环境与设备检查完成后，确认结果并进入桌面"),
        }
    }

    /// The label of the inspection step's main button.
    pub fn primary_action_label(&self) -> (s: String)
        ensures
            s@ == if self.busy {
                if self.inspect_items@.len() == 0 && self.inspect_error@.len() == 0 {
                    "正在检查设备..."@
                } else {
                    "正在提交签到..."@
                }
            } else {
                "进入桌面"@
            },
    {
        if self.busy {
            if self.inspect_items.len() == 0 && self.inspect_error.as_str().is_empty() {
                String::from_str("正在检查设备...")
            } else {
                String::from_str("正在提交签到...")
            }
        } else {
            String::from_str("进入桌面")
        }
    }

    /// How the status message is shown: success words, then abnormal words,
    /// then work in progress, else as an error.
    pub fn message_tone(&self) -> (t: Tone)
        ensures
            t == if seq_contains(self.message@, "成功"@) || seq_contains(self.message@, "完成"@) {
                Tone::Success
            } else if seq_contains(self.message@, "异常"@) {
                Tone::Warning
            } else if self.busy {
                Tone::Muted
            } else {
                Tone::Danger
            },
    {
        let m = self.message.as_str();
        if contains_str(m, "成功") || contains_str(m, "完成") {
            Tone::Success
        } else if contains_str(m, "异常") {
            Tone::Warning
        } else if self.busy {
            Tone::Muted
        } else {
            Tone::Danger
        }
    }
}

/// The check-in is submitted at most once while it is running: a second
/// submit right after the first asks for nothing.
pub proof fn lemma_submit_once(a: CheckinApp, message: String)
    ensures
        !spec_can_enter(CheckinApp { busy: true, submitted: true, message, ..a }),
{
}

} // verus!
