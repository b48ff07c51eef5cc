use fixcpp::config::{Config, Fix};
use fixcpp::orchestrator::{Action, Observation, Orchestrator, StartError, StepError};
use fixcpp::progress::Progress;
use fixcpp::run_config::{enabled_fix_names, RunConfiguration};
use fixcpp::run_state::{Event, FixFailure, LinterStatus, RunPhase};

fn fix(name: &str, enabled: bool) -> Fix {
    Fix { name: name.to_string(), enabled }
}

fn run_of(fixes: Vec<Fix>) -> RunConfiguration {
    RunConfiguration {
        tool_path: "/opt/llvm/bin/run-clang-tidy".to_string(),
        project_path: "/work/project".to_string(),
        fixes,
    }
}

fn three_enabled() -> RunConfiguration {
    run_of(vec![
        fix("first", true),
        fix("skipped", false),
        fix("second", true),
        fix("third", true),
    ])
}

fn percent(progress: Progress) -> f32 {
    progress.completed as f32 / progress.total as f32 * 100.0
}

fn expect_write(action: Result<Action, StepError>, check: &str) {
    match action {
        Ok(Action::WriteArtifact { directory, file_name, contents }) => {
            assert_eq!(directory, "/work/project");
            assert_eq!(file_name, ".clang-tidy");
            assert_eq!(
                contents,
                format!(
                    "Checks: '-*,{}'\nWarningsAsErrors: ''\nHeaderFilterRegex: ''\nFormatStyle: none\nUser: ''\nExtraArgs: []\nExtraArgsBefore: []\n",
                    check
                )
            );
        }
        other => panic!("expected a lint configuration to write, got {:?}", other),
    }
}

fn expect_linter(action: Result<Action, StepError>) {
    match action {
        Ok(Action::RunLinter { program, arguments, working_directory }) => {
            assert_eq!(program, "python");
            assert_eq!(
                arguments,
                vec![
                    "/opt/llvm/bin/run-clang-tidy".to_string(),
                    ".".to_string(),
                    "-fix".to_string(),
                    "-j 10".to_string(),
                ]
            );
            assert_eq!(working_directory, "/work/project");
        }
        other => panic!("expected a linter run, got {:?}", other),
    }
}

fn expect_continue(action: Result<Action, StepError>) {
    assert!(matches!(action, Ok(Action::Continue)), "got {:?}", action);
}

fn expect_stop(action: Result<Action, StepError>) {
    assert!(matches!(action, Ok(Action::Stop)), "got {:?}", action);
}

/// Takes the run through one fix with the given linter report and returns
/// the answer to that report.
fn apply_fix(
    orchestrator: &mut Orchestrator,
    check: &str,
    status: LinterStatus,
) -> Result<Action, StepError> {
    expect_write(orchestrator.step(Event::NextFix), check);
    expect_linter(orchestrator.step(Event::ArtifactWritten));
    orchestrator.step(Event::LinterFinished(status))
}

#[test]
fn observe_before_any_run() {
    let orchestrator = Orchestrator::new();
    let seen = orchestrator.observe();
    assert_eq!(seen, Observation { is_running: false, progress: Progress { completed: 0, total: 1 } });
    assert_eq!(percent(seen.progress), 0.0);
    assert_eq!(orchestrator.phase(), RunPhase::Idle);
    assert!(!orchestrator.is_running());
    assert!(!orchestrator.cancel_requested());
    assert_eq!(orchestrator.invocations(), 0);
    assert_eq!(orchestrator.completed_fixes(), 0);
    assert_eq!(orchestrator.enabled_fixes(), 0);
    assert!(orchestrator.failures().is_empty());
}

#[test]
fn start_resets_the_run_state() {
    let mut orchestrator = Orchestrator::new();
    assert_eq!(orchestrator.start(three_enabled()), Ok(()));
    assert_eq!(orchestrator.phase(), RunPhase::Running);
    assert_eq!(
        orchestrator.observe(),
        Observation { is_running: true, progress: Progress { completed: 0, total: 3 } }
    );
    assert!(!orchestrator.cancel_requested());
    assert_eq!(orchestrator.enabled_fixes(), 3);
    assert_eq!(orchestrator.invocations(), 0);
}

#[test]
fn run_of_three_fixes_completes_at_full_progress() {
    let mut orchestrator = Orchestrator::new();
    orchestrator.start(three_enabled()).unwrap();
    let mut seen: Vec<f32> = vec![percent(orchestrator.observe().progress)];

    expect_continue(apply_fix(&mut orchestrator, "first", LinterStatus::Succeeded));
    assert_eq!(orchestrator.observe().progress, Progress { completed: 1, total: 3 });
    assert_eq!(percent(orchestrator.observe().progress), 1.0_f32 / 3.0 * 100.0);
    seen.push(percent(orchestrator.observe().progress));

    expect_continue(apply_fix(&mut orchestrator, "second", LinterStatus::Succeeded));
    assert_eq!(orchestrator.observe().progress, Progress { completed: 2, total: 3 });
    assert_eq!(percent(orchestrator.observe().progress), 2.0_f32 / 3.0 * 100.0);
    seen.push(percent(orchestrator.observe().progress));
    assert!(orchestrator.is_running());

    expect_stop(apply_fix(&mut orchestrator, "third", LinterStatus::Succeeded));
    seen.push(percent(orchestrator.observe().progress));
    assert_eq!(orchestrator.phase(), RunPhase::Completed);
    assert_eq!(
        orchestrator.observe(),
        Observation { is_running: false, progress: Progress { completed: 3, total: 3 } }
    );
    assert_eq!(percent(orchestrator.observe().progress), 100.0);
    assert!(orchestrator.observe().progress.is_complete());
    assert_eq!(orchestrator.invocations(), 3);
    assert_eq!(orchestrator.completed_fixes(), 3);
    assert!(orchestrator.failures().is_empty());
    assert!(seen.windows(2).all(|pair| pair[0] <= pair[1]));
    assert_eq!(seen, vec![0.0, 1.0_f32 / 3.0 * 100.0, 2.0_f32 / 3.0 * 100.0, 100.0]);
}

#[test]
fn progress_does_not_move_inside_a_fix() {
    let mut orchestrator = Orchestrator::new();
    orchestrator.start(three_enabled()).unwrap();
    let zero = Progress { completed: 0, total: 3 };
    expect_write(orchestrator.step(Event::NextFix), "first");
    assert_eq!(orchestrator.observe().progress, zero);
    assert_eq!(orchestrator.invocations(), 0);
    expect_linter(orchestrator.step(Event::ArtifactWritten));
    assert_eq!(orchestrator.observe().progress, zero);
    assert_eq!(orchestrator.invocations(), 1);
    expect_continue(orchestrator.step(Event::LinterFinished(LinterStatus::Succeeded)));
    assert_eq!(orchestrator.observe().progress, Progress { completed: 1, total: 3 });
    assert_eq!(orchestrator.invocations(), 1);
}

#[test]
fn run_with_empty_fix_list_completes_at_once() {
    let mut orchestrator = Orchestrator::new();
    orchestrator.start(run_of(Vec::new())).unwrap();
    assert!(orchestrator.is_running());
    assert_eq!(percent(orchestrator.observe().progress), 0.0);
    expect_stop(orchestrator.step(Event::NextFix));
    assert_eq!(orchestrator.phase(), RunPhase::Completed);
    assert_eq!(
        orchestrator.observe(),
        Observation { is_running: false, progress: Progress { completed: 1, total: 1 } }
    );
    assert_eq!(percent(orchestrator.observe().progress), 100.0);
    assert_eq!(orchestrator.invocations(), 0);
}

#[test]
fn run_with_all_fixes_disabled_completes_at_once() {
    let mut orchestrator = Orchestrator::new();
    orchestrator.start(run_of(vec![fix("a", false), fix("b", false)])).unwrap();
    assert_eq!(orchestrator.enabled_fixes(), 0);
    expect_stop(orchestrator.step(Event::NextFix));
    assert_eq!(orchestrator.phase(), RunPhase::Completed);
    assert_eq!(percent(orchestrator.observe().progress), 100.0);
    assert_eq!(orchestrator.invocations(), 0);
    assert!(orchestrator.failures().is_empty());
}

#[test]
fn run_without_fixes_completes_even_when_asked_to_stop() {
    let mut orchestrator = Orchestrator::new();
    orchestrator.start(run_of(vec![fix("a", false)])).unwrap();
    orchestrator.cancel();
    expect_stop(orchestrator.step(Event::NextFix));
    assert_eq!(orchestrator.phase(), RunPhase::Completed);
    assert_eq!(percent(orchestrator.observe().progress), 100.0);
}

#[test]
fn cancel_before_the_first_fix() {
    let mut orchestrator = Orchestrator::new();
    orchestrator.start(three_enabled()).unwrap();
    orchestrator.cancel();
    assert!(orchestrator.cancel_requested());
    assert!(orchestrator.is_running());
    expect_stop(orchestrator.step(Event::NextFix));
    assert_eq!(orchestrator.phase(), RunPhase::Cancelled);
    assert_eq!(
        orchestrator.observe(),
        Observation { is_running: false, progress: Progress { completed: 0, total: 3 } }
    );
    assert_eq!(percent(orchestrator.observe().progress), 0.0);
    assert_eq!(orchestrator.invocations(), 0);
}

#[test]
fn cancel_between_two_fixes() {
    for k in 1..3usize {
        let mut orchestrator = Orchestrator::new();
        orchestrator.start(three_enabled()).unwrap();
        let checks = ["first", "second", "third"];
        for check in &checks[..k] {
            expect_continue(apply_fix(&mut orchestrator, check, LinterStatus::Succeeded));
        }
        orchestrator.cancel();
        expect_stop(orchestrator.step(Event::NextFix));
        assert_eq!(orchestrator.phase(), RunPhase::Cancelled);
        assert_eq!(orchestrator.observe().progress, Progress { completed: k, total: 3 });
        assert_eq!(percent(orchestrator.observe().progress), k as f32 / 3.0 * 100.0);
        assert_eq!(orchestrator.invocations(), k);
        assert!(!orchestrator.is_running());
    }
}

#[test]
fn cancel_during_a_fix_lets_it_finish() {
    let mut orchestrator = Orchestrator::new();
    orchestrator.start(three_enabled()).unwrap();
    expect_write(orchestrator.step(Event::NextFix), "first");
    orchestrator.cancel();
    expect_linter(orchestrator.step(Event::ArtifactWritten));
    expect_continue(orchestrator.step(Event::LinterFinished(LinterStatus::Succeeded)));
    assert!(orchestrator.is_running());
    assert_eq!(orchestrator.observe().progress, Progress { completed: 1, total: 3 });
    expect_stop(orchestrator.step(Event::NextFix));
    assert_eq!(orchestrator.phase(), RunPhase::Cancelled);
    assert_eq!(orchestrator.observe().progress, Progress { completed: 1, total: 3 });
    assert_eq!(orchestrator.invocations(), 1);
}

#[test]
fn cancel_during_the_last_fix_comes_too_late() {
    let mut orchestrator = Orchestrator::new();
    orchestrator.start(run_of(vec![fix("only", true)])).unwrap();
    expect_write(orchestrator.step(Event::NextFix), "only");
    expect_linter(orchestrator.step(Event::ArtifactWritten));
    orchestrator.cancel();
    expect_stop(orchestrator.step(Event::LinterFinished(LinterStatus::Succeeded)));
    assert_eq!(orchestrator.phase(), RunPhase::Completed);
    assert_eq!(percent(orchestrator.observe().progress), 100.0);
}

#[test]
fn cancel_is_idempotent_and_ignored_without_a_run() {
    let mut orchestrator = Orchestrator::new();
    orchestrator.cancel();
    assert!(!orchestrator.cancel_requested());
    assert_eq!(orchestrator.phase(), RunPhase::Idle);
    orchestrator.start(three_enabled()).unwrap();
    orchestrator.cancel();
    orchestrator.cancel();
    assert!(orchestrator.cancel_requested());
    assert_eq!(orchestrator.observe().progress, Progress { completed: 0, total: 3 });
    expect_stop(orchestrator.step(Event::NextFix));
    orchestrator.cancel();
    assert_eq!(orchestrator.phase(), RunPhase::Cancelled);
    let mut done = Orchestrator::new();
    done.start(run_of(Vec::new())).unwrap();
    expect_stop(done.step(Event::NextFix));
    done.cancel();
    assert!(!done.cancel_requested());
    assert_eq!(done.phase(), RunPhase::Completed);
}

#[test]
fn linter_failure_does_not_stop_the_run() {
    let mut orchestrator = Orchestrator::new();
    orchestrator.start(three_enabled()).unwrap();
    expect_continue(apply_fix(&mut orchestrator, "first", LinterStatus::Succeeded));
    expect_continue(apply_fix(&mut orchestrator, "second", LinterStatus::ExitedWithFailure));
    assert_eq!(orchestrator.observe().progress, Progress { completed: 2, total: 3 });
    expect_stop(apply_fix(&mut orchestrator, "third", LinterStatus::Succeeded));
    assert_eq!(orchestrator.phase(), RunPhase::Completed);
    assert_eq!(percent(orchestrator.observe().progress), 100.0);
    assert_eq!(orchestrator.invocations(), 3);
    assert_eq!(
        orchestrator.failures(),
        vec![FixFailure { fix: 1, status: LinterStatus::ExitedWithFailure }]
    );
}

#[test]
fn linter_that_cannot_be_started_is_recorded_too() {
    let mut orchestrator = Orchestrator::new();
    orchestrator.start(three_enabled()).unwrap();
    expect_continue(apply_fix(&mut orchestrator, "first", LinterStatus::LaunchFailed));
    expect_continue(apply_fix(&mut orchestrator, "second", LinterStatus::Succeeded));
    expect_stop(apply_fix(&mut orchestrator, "third", LinterStatus::ExitedWithFailure));
    assert_eq!(orchestrator.phase(), RunPhase::Completed);
    assert_eq!(orchestrator.invocations(), 3);
    assert_eq!(
        orchestrator.failures(),
        vec![
            FixFailure { fix: 0, status: LinterStatus::LaunchFailed },
            FixFailure { fix: 2, status: LinterStatus::ExitedWithFailure },
        ]
    );
}

#[test]
fn write_failure_ends_the_run() {
    let mut orchestrator = Orchestrator::new();
    orchestrator.start(three_enabled()).unwrap();
    expect_continue(apply_fix(&mut orchestrator, "first", LinterStatus::Succeeded));
    expect_write(orchestrator.step(Event::NextFix), "second");
    expect_stop(orchestrator.step(Event::ArtifactWriteFailed));
    assert_eq!(orchestrator.phase(), RunPhase::Failed);
    assert_eq!(
        orchestrator.observe(),
        Observation { is_running: false, progress: Progress { completed: 1, total: 3 } }
    );
    assert_eq!(percent(orchestrator.observe().progress), 1.0_f32 / 3.0 * 100.0);
    assert_eq!(orchestrator.invocations(), 1);
    assert_eq!(orchestrator.completed_fixes(), 1);
    for event in [
        Event::NextFix,
        Event::ArtifactWritten,
        Event::ArtifactWriteFailed,
        Event::LinterFinished(LinterStatus::Succeeded),
    ] {
        assert!(matches!(orchestrator.step(event), Err(StepError::NotRunning)));
    }
    assert_eq!(orchestrator.invocations(), 1);
    assert_eq!(orchestrator.phase(), RunPhase::Failed);
}

#[test]
fn second_start_is_refused_and_disturbs_nothing() {
    let mut orchestrator = Orchestrator::new();
    orchestrator.start(three_enabled()).unwrap();
    expect_continue(apply_fix(&mut orchestrator, "first", LinterStatus::ExitedWithFailure));
    expect_write(orchestrator.step(Event::NextFix), "second");
    orchestrator.cancel();
    let other = RunConfiguration {
        tool_path: "other-tool".to_string(),
        project_path: "other-project".to_string(),
        fixes: vec![fix("x", true)],
    };
    assert_eq!(orchestrator.start(other), Err(StartError::AlreadyRunning));
    assert_eq!(orchestrator.phase(), RunPhase::Running);
    assert!(orchestrator.cancel_requested());
    assert_eq!(orchestrator.enabled_fixes(), 3);
    assert_eq!(orchestrator.completed_fixes(), 1);
    assert_eq!(orchestrator.invocations(), 1);
    assert_eq!(orchestrator.observe().progress, Progress { completed: 1, total: 3 });
    assert_eq!(
        orchestrator.failures(),
        vec![FixFailure { fix: 0, status: LinterStatus::ExitedWithFailure }]
    );
    expect_linter(orchestrator.step(Event::ArtifactWritten));
}

#[test]
fn start_after_a_run_begins_afresh() {
    let mut orchestrator = Orchestrator::new();
    orchestrator.start(three_enabled()).unwrap();
    expect_continue(apply_fix(&mut orchestrator, "first", LinterStatus::LaunchFailed));
    orchestrator.cancel();
    expect_stop(orchestrator.step(Event::NextFix));
    assert_eq!(orchestrator.phase(), RunPhase::Cancelled);
    assert_eq!(orchestrator.start(run_of(vec![fix("again", true)])), Ok(()));
    assert_eq!(orchestrator.phase(), RunPhase::Running);
    assert!(!orchestrator.cancel_requested());
    assert_eq!(orchestrator.observe().progress, Progress { completed: 0, total: 1 });
    assert_eq!(orchestrator.invocations(), 0);
    assert!(orchestrator.failures().is_empty());
    expect_stop(apply_fix(&mut orchestrator, "again", LinterStatus::Succeeded));
    assert_eq!(orchestrator.phase(), RunPhase::Completed);
    let mut failed = Orchestrator::new();
    failed.start(three_enabled()).unwrap();
    expect_write(failed.step(Event::NextFix), "first");
    expect_stop(failed.step(Event::ArtifactWriteFailed));
    assert_eq!(failed.start(run_of(Vec::new())), Ok(()));
    assert!(failed.is_running());
}

#[test]
fn events_out_of_turn_are_refused() {
    let mut orchestrator = Orchestrator::new();
    assert!(matches!(orchestrator.step(Event::NextFix), Err(StepError::NotRunning)));
    assert_eq!(orchestrator.phase(), RunPhase::Idle);
    orchestrator.start(three_enabled()).unwrap();
    for event in [
        Event::ArtifactWritten,
        Event::ArtifactWriteFailed,
        Event::LinterFinished(LinterStatus::Succeeded),
    ] {
        assert!(matches!(orchestrator.step(event), Err(StepError::UnexpectedEvent)));
    }
    assert_eq!(orchestrator.invocations(), 0);
    expect_write(orchestrator.step(Event::NextFix), "first");
    for event in [Event::NextFix, Event::LinterFinished(LinterStatus::LaunchFailed)] {
        assert!(matches!(orchestrator.step(event), Err(StepError::UnexpectedEvent)));
    }
    expect_linter(orchestrator.step(Event::ArtifactWritten));
    for event in [Event::NextFix, Event::ArtifactWritten, Event::ArtifactWriteFailed] {
        assert!(matches!(orchestrator.step(event), Err(StepError::UnexpectedEvent)));
    }
    assert_eq!(orchestrator.invocations(), 1);
    assert_eq!(orchestrator.completed_fixes(), 0);
    assert!(orchestrator.failures().is_empty());
    expect_continue(orchestrator.step(Event::LinterFinished(LinterStatus::Succeeded)));
}

#[test]
fn run_works_from_a_copy_of_the_configuration() {
    let mut config = Config::new();
    config.set_run_clang_tidy_path("/opt/llvm/bin/run-clang-tidy".to_string());
    config.set_project_path("/work/project".to_string());
    config.fixes = vec![fix("first", true), fix("later", false)];
    let run = config.run_configuration();
    assert_eq!(run.tool_path, "/opt/llvm/bin/run-clang-tidy");
    assert_eq!(run.project_path, "/work/project");
    assert_eq!(run.fixes.len(), 2);
    let mut orchestrator = Orchestrator::new();
    orchestrator.start(run).unwrap();
    config.set_project_path("/elsewhere".to_string());
    config.set_run_clang_tidy_path("changed".to_string());
    config.set_all_fixes_enabled(true);
    config.fixes[0].name = "renamed".to_string();
    assert_eq!(orchestrator.enabled_fixes(), 1);
    expect_stop(apply_fix(&mut orchestrator, "first", LinterStatus::Succeeded));
    assert_eq!(orchestrator.phase(), RunPhase::Completed);
}

#[test]
fn enabled_fix_names_keeps_the_order_of_the_list() {
    let fixes = vec![fix("c", true), fix("a", false), fix("b", true), fix("c", true)];
    assert_eq!(enabled_fix_names(&fixes), vec!["c".to_string(), "b".to_string(), "c".to_string()]);
    assert!(enabled_fix_names(&vec![fix("a", false)]).is_empty());
    assert!(enabled_fix_names(&Vec::new()).is_empty());
}

#[test]
fn progress_is_complete_only_when_all_is_done() {
    assert!(Progress { completed: 3, total: 3 }.is_complete());
    assert!(Progress { completed: 1, total: 1 }.is_complete());
    assert!(!Progress { completed: 2, total: 3 }.is_complete());
    assert!(!Progress { completed: 0, total: 1 }.is_complete());
}
