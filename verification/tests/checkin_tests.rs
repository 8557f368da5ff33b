use campuslink::checkin::app::{
    checkin_args, checkin_outcome, student_login_outcome, CheckinApp, Job, Mode, Stage, Tone,
    WorkerFollowUp, WorkerResult,
};
use campuslink::checkin::inspect::{collect, health_url, inspection_items, item, MachineFacts};

fn app(mode: Mode) -> CheckinApp {
    CheckinApp::new(mode, "http://srv".into(), "dev".into(), "pw".into())
}

#[test]
fn open_mode_identity_needs_a_name() {
    let mut a = app(Mode::Open);
    match a.start_identity() {
        Some(Job::Decided(Err(e))) => assert_eq!(e, "请输入使用者姓名"),
        _ => panic!("expected error"),
    }
    assert!(a.busy);
    assert!(a.start_identity().is_none());
    let next = a.apply_worker(Err("请输入使用者姓名".into()));
    assert!(matches!(next, WorkerFollowUp::Idle));
    a.name_input = "  Li Lei ".into();
    match a.start_identity() {
        Some(Job::Decided(Ok(WorkerResult::IdentityOk { student_id }))) => assert_eq!(student_id, "Li Lei"),
        _ => panic!("expected identity"),
    }
}

#[test]
fn teaching_flow_to_submission() {
    let mut a = app(Mode::Teaching);
    a.student_no_input = "S1".into();
    a.password_input = "123456".into();
    assert!(matches!(a.start_identity(), Some(Job::StudentLogin { .. })));
    let r = student_login_outcome(Some(0), Some("stu-1".into()), Some(false), None);
    assert!(matches!(a.apply_worker(r), WorkerFollowUp::Idle));
    assert_eq!(a.stage, Stage::ChangePassword);
    a.new_password_input = "abc".into();
    assert!(a.start_change_password().is_none());
    assert_eq!(a.message, "新密码长度不得少于 4 位");
    a.new_password_input = "abcd".into();
    assert!(matches!(a.start_change_password(), Some(Job::ChangePassword { .. })));
    let next = a.apply_worker(Ok(WorkerResult::IdentityOk { student_id: "stu-1".into() }));
    assert!(matches!(next, WorkerFollowUp::Run(Job::Inspect { .. })));
    assert_eq!(a.stage, Stage::Inspect);
    assert!(!a.can_enter_desktop());
    let report = collect(Ok(vec![item("CPU", true, None), item("网络", false, Some("x".into()))]));
    assert!(report.is_abnormal);
    a.apply_worker(Ok(WorkerResult::Inspected(report)));
    assert_eq!(a.message, "检查存在异常项，仍可提交签到进入桌面");
    assert_eq!(a.message_tone(), Tone::Warning);
    assert!(a.can_enter_desktop());
    match a.on_enter() {
        Some(Job::Submit { is_abnormal, items, .. }) => {
            assert!(is_abnormal);
            assert_eq!(items.len(), 2);
        }
        _ => panic!("expected submit"),
    }
    assert!(a.start_submit().is_none());
    let done = a.apply_worker(checkin_outcome(Some(0), None));
    assert!(matches!(done, WorkerFollowUp::ExitCheckedIn));
}

#[test]
fn failed_inspections_allow_entry_after_two() {
    let mut a = app(Mode::Open);
    a.stage = Stage::Inspect;
    let failed = collect(Err("boom".into()));
    assert!(failed.is_abnormal);
    a.apply_worker(Ok(WorkerResult::Inspected(failed)));
    assert_eq!(a.message, "检查采集失败：boom");
    assert!(!a.can_enter_desktop());
    a.apply_worker(Ok(WorkerResult::Inspected(collect(Err("again".into())))));
    assert!(a.can_enter_desktop());
}

#[test]
fn teacher_unlock_counts_failures() {
    let mut a = app(Mode::Open);
    a.teacher_input = "no".into();
    assert!(!a.try_teacher_unlock());
    assert_eq!(a.message, "教师密码错误，已尝试 1 次");
    a.teacher_input = "pw".into();
    assert!(a.try_teacher_unlock());
    let mut empty = CheckinApp::new(Mode::Open, "s".into(), "d".into(), "".into());
    assert!(!empty.try_teacher_unlock());
}

#[test]
fn login_outcomes() {
    assert_eq!(student_login_outcome(Some(1), None, None, None).err().unwrap(), "验证失败");
    assert_eq!(student_login_outcome(Some(1), None, None, Some("nope".into())).err().unwrap(), "nope");
    assert_eq!(student_login_outcome(Some(0), Some("".into()), Some(true), None).err().unwrap(), "登录响应缺少学生 ID");
    assert!(matches!(student_login_outcome(Some(0), Some("s".into()), Some(true), None), Ok(WorkerResult::IdentityOk { .. })));
    assert_eq!(checkin_outcome(None, None).err().unwrap(), "签到失败");
}

#[test]
fn program_arguments() {
    let args: Vec<String> = vec!["p".into(), "http://s".into(), "d".into(), "teaching".into()];
    let (s, d, m, p) = checkin_args(&args).unwrap();
    assert_eq!((s.as_str(), d.as_str(), m, p.as_str()), ("http://s", "d", Mode::Teaching, "admin123"));
    assert!(checkin_args(&vec!["p".to_string()]).is_none());
}

#[test]
fn inspection_items_from_facts() {
    let facts = MachineFacts {
        first_cpu_brand: Some("  ".into()),
        total_memory_bytes: 0,
        memory_detail: "0.0 GB".into(),
        total_disk_bytes: 10,
        disk_detail: "d".into(),
        network_ok: true,
        network_detail: "ok".into(),
    };
    let items = inspection_items(" ", facts);
    assert_eq!(items.len(), 7);
    assert_eq!(items[0].status, "abnormal");
    assert_eq!(items[0].detail.as_deref(), Some("缺少设备编号"));
    assert_eq!(items[1].detail.as_deref(), Some("unknown"));
    assert_eq!(items[1].status, "abnormal");
    assert_eq!(items[2].status, "abnormal");
    assert_eq!(items[3].status, "normal");
    assert_eq!(health_url("http://srv//"), "http://srv/api/health");
}

#[test]
fn new_password_length_counts_characters() {
    let mut a = app(Mode::Teaching);
    a.stage = Stage::ChangePassword;
    a.new_password_input = "密码".into();
    assert!(a.start_change_password().is_none());
    assert_eq!(a.message, "新密码长度不得少于 4 位");
    assert!(!a.busy);
    a.new_password_input = "新的密码".into();
    assert!(matches!(a.start_change_password(), Some(Job::ChangePassword { .. })));
    assert!(a.busy);
    assert_eq!(a.message, "正在修改密码...");
}
