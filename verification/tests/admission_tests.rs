use campuslink::agent::attendance::{
    monitor_step, start_admission_monitor, stop_admission_monitor, AdmissionGeneration,
    CheckinRun, MonitorStep,
};
use campuslink::agent::config::Config;

fn run_monitor(gen: &AdmissionGeneration, mine: u64, runs: &[CheckinRun]) -> (usize, MonitorStep) {
    for (i, run) in runs.iter().enumerate() {
        let step = monitor_step(gen, mine, *run);
        if !matches!(step, MonitorStep::RetryAfter { .. }) {
            return (i, step);
        }
    }
    (runs.len(), MonitorStep::RetryAfter { seconds: 1 })
}

#[test]
fn monitor_relaunches_until_first_exit_zero_or_ten() {
    let mut gen = AdmissionGeneration::new();
    let mut config = Config::default();
    config.current_mode = "teaching".to_string();
    let mine = start_admission_monitor(&config, &mut gen).expect("teaching needs admission");
    assert_eq!(mine, 1);
    let runs = [
        CheckinRun::ProgramMissing,
        CheckinRun::LaunchFailed,
        CheckinRun::Exited { code: Some(3) },
        CheckinRun::Exited { code: None },
        CheckinRun::Exited { code: Some(10) },
        CheckinRun::Exited { code: Some(0) },
    ];
    assert_eq!(monitor_step(&gen, mine, runs[0]), MonitorStep::RetryAfter { seconds: 3 });
    assert_eq!(run_monitor(&gen, mine, &runs), (4, MonitorStep::TeacherUnlocked));
    assert_eq!(run_monitor(&gen, mine, &runs[5..]), (0, MonitorStep::Completed));
    stop_admission_monitor(&mut gen);
    assert_eq!(run_monitor(&gen, mine, &runs), (0, MonitorStep::Cancelled));
}

#[test]
fn exam_mode_starts_no_monitor() {
    let mut gen = AdmissionGeneration::new();
    let mut config = Config::default();
    config.current_mode = "exam".to_string();
    assert_eq!(start_admission_monitor(&config, &mut gen), None);
    assert_eq!(gen.current, 0);
}
