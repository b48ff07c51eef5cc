//! The orchestrator: the run state machine in executable form.
//!
//! One orchestrator is shared by the caller, who starts and cancels runs and
//! looks at their progress, and by the driver of a run, who feeds it events
//! and carries out the actions that it answers with. Every method works on
//! the state as a whole, so a lock around the orchestrator is all the
//! synchronisation that the two need.

use vstd::prelude::*;
use crate::lint_config::lint_configuration;
use crate::progress::Progress;
use crate::run_config::{enabled_fix_names, RunConfiguration};
use crate::run_state::{
    ActionView,
    Awaiting,
    Event,
    FixFailure,
    LinterStatus,
    RunPhase,
    RunState,
};
use crate::strings::string_views;

verus! {

/// What the run asks its driver to do next.
#[derive(Debug)]
pub enum Action {
    /// Write `contents` to the file `file_name` in `directory`, replacing
    /// what is there, and report `ArtifactWritten` or `ArtifactWriteFailed`.
    WriteArtifact { directory: String, file_name: String, contents: String },
    /// Start `program` with `arguments` in `working_directory`, wait for it
    /// to end, and report `LinterFinished`.
    RunLinter { program: String, arguments: Vec<String>, working_directory: String },
    /// A fix is done and more remain: report `NextFix`.
    Continue,
    /// The run is over.
    Stop,
}

impl View for Action {
    type V = ActionView;

    open spec fn view(&self) -> ActionView {
        match self {
            Action::WriteArtifact { directory, file_name, contents } => ActionView::WriteArtifact {
                directory: directory@,
                file_name: file_name@,
                contents: contents@,
            },
            Action::RunLinter { program, arguments, working_directory } => ActionView::RunLinter {
                program: program@,
                arguments: string_views(arguments@),
                working_directory: working_directory@,
            },
            Action::Continue => ActionView::Continue,
            Action::Stop => ActionView::Stop,
        }
    }
}

/// Why a run was not started.
#[derive(Clone, Copy, Debug, PartialEq, Eq, Structural)]
pub enum StartError {
    /// A run is under way.
    AlreadyRunning,
}

/// Why an event was not taken.
#[derive(Clone, Copy, Debug, PartialEq, Eq, Structural)]
pub enum StepError {
    /// No run is under way.
    NotRunning,
    /// The run waits for something else.
    UnexpectedEvent,
}

/// What the caller sees of a run at one moment.
#[derive(Clone, Copy, Debug, PartialEq, Eq, Structural)]
pub struct Observation {
    pub is_running: bool,
    pub progress: Progress,
}

/// Runs the selected fixes one after the other.
pub struct Orchestrator {
    phase: RunPhase,
    awaiting: Awaiting,
    tool_path: String,
    project_path: String,
    enabled: Vec<String>,
    completed: usize,
    cancel_requested: bool,
    invocations: usize,
    failures: Vec<FixFailure>,
}

impl View for Orchestrator {
    type V = RunState;

    closed spec fn view(&self) -> RunState {
        RunState {
            phase: self.phase,
            awaiting: self.awaiting,
            tool_path: self.tool_path@,
            project_path: self.project_path@,
            enabled: string_views(self.enabled@),
            completed: self.completed as nat,
            cancel_requested: self.cancel_requested,
            invocations: self.invocations as nat,
            failures: self.failures@,
        }
    }
}

impl Orchestrator {
    /// An orchestrator that has not run anything yet.
    pub fn new() -> (orchestrator: Orchestrator)
        ensures
            orchestrator@ == RunState::idle(),
            orchestrator@.wf(),
    {
        let orchestrator = Orchestrator {
            phase: RunPhase::Idle,
            awaiting: Awaiting::NextFix,
            tool_path: String::new(),
            project_path: String::new(),
            enabled: Vec::new(),
            completed: 0,
            cancel_requested: false,
            invocations: 0,
            failures: Vec::new(),
        };
        assert(string_views(orchestrator.enabled@) =~= Seq::empty());
        orchestrator
    }

    /// Starts a run of the selected fixes of `config`, unless a run is under
    /// way: then the call is refused and that run is not touched.
    ///
    /// The new run has nothing done and no cancellation requested, and
    /// waits for its driver to ask for the first fix.
    pub fn start(&mut self, config: RunConfiguration) -> (result: Result<(), StartError>)
        requires
            old(self)@.wf(),
        ensures
            final(self)@.wf(),
            final(self)@ == old(self)@.start(config@),
            old(self)@.is_running() ==> result == Err::<(), StartError>(
                StartError::AlreadyRunning,
            ) && final(self)@ == old(self)@,
            !old(self)@.is_running() ==> result is Ok && final(self)@ == RunState::started(
                config@,
            ),
    {
        if self.phase == RunPhase::Running {
            return Err(StartError::AlreadyRunning);
        }
        let enabled = enabled_fix_names(&config.fixes);
        self.phase = RunPhase::Running;
        self.awaiting = Awaiting::NextFix;
        self.tool_path = config.tool_path;
        self.project_path = config.project_path;
        self.enabled = enabled;
        self.completed = 0;
        self.cancel_requested = false;
        self.invocations = 0;
        self.failures = Vec::new();
        proof {
            assert(self.enabled.len() <= usize::MAX);
            assert(self.enabled@.len() == string_views(self.enabled@).len());
            assert(self@.failures_wf());
        }
        Ok(())
    }

    /// Asks the run that is under way to stop before its next fix. Without
    /// such a run nothing happens; asking twice is the same as asking once.
    pub fn cancel(&mut self)
        requires
            old(self)@.wf(),
        ensures
            final(self)@.wf(),
            final(self)@ == old(self)@.cancel(),
    {
        if self.phase == RunPhase::Running {
            self.cancel_requested = true;
        }
    }

    /// Whether a run is under way, and how far the current or last run
    /// came.
    pub fn observe(&self) -> (seen: Observation)
        requires
            self@.wf(),
        ensures
            seen.is_running == self@.is_running(),
            seen.progress == self@.progress(),
            seen.progress.wf(),
    {
        assert(self.enabled@.len() == string_views(self.enabled@).len());
        let progress = if self.enabled.len() == 0 {
            if self.phase == RunPhase::Completed {
                Progress { completed: 1, total: 1 }
            } else {
                Progress { completed: 0, total: 1 }
            }
        } else {
            Progress { completed: self.completed, total: self.enabled.len() }
        };
        Observation { is_running: self.phase == RunPhase::Running, progress }
    }

    /// Takes an event from the driver of the run and answers with what to
    /// do next.
    ///
    /// Asked for the next fix, a run without fixes is completed; else a run
    /// that was asked to stop is cancelled, with its progress left where it
    /// was; else the lint configuration for the next fix is to be written.
    /// Once that is written the linter is to be run; if it could not be
    /// written the run has failed and the fixes that remain are not tried.
    /// When the linter comes back the fix counts as done, whatever the
    /// linter reported, and a report other than success is recorded; after
    /// the last fix the run is completed.
    ///
    /// An event that the run does not wait for is refused, and the state
    /// stays as it is.
    pub fn step(&mut self, event: Event) -> (result: Result<Action, StepError>)
        requires
            old(self)@.wf(),
        ensures
            final(self)@.wf(),
            final(self)@ == old(self)@.after(event),
            match result {
                Ok(action) => old(self)@.expects(event) && action@ == old(self)@.response(event),
                Err(StepError::NotRunning) => !old(self)@.is_running(),
                Err(StepError::UnexpectedEvent) => old(self)@.is_running() && !old(
                    self,
                )@.expects(event),
            },
    {
        proof {
            assert(self.enabled@.len() == string_views(self.enabled@).len());
        }
        if self.phase != RunPhase::Running {
            return Err(StepError::NotRunning);
        }
        match (self.awaiting, event) {
            (Awaiting::NextFix, Event::NextFix) => {
                if self.enabled.len() == 0 {
                    self.phase = RunPhase::Completed;
                    Ok(Action::Stop)
                } else if self.cancel_requested {
                    self.phase = RunPhase::Cancelled;
                    Ok(Action::Stop)
                } else {
                    self.awaiting = Awaiting::ArtifactWrite;
                    let mut checks: Vec<String> = Vec::new();
                    checks.push(self.enabled[self.completed].clone());
                    proof {
                        assert(string_views(checks@) =~= seq![
                            string_views(self.enabled@)[self.completed as int],
                        ]);
                    }
                    Ok(
                        Action::WriteArtifact {
                            directory: self.project_path.clone(),
                            file_name: String::from_str(".clang-tidy"),
                            contents: lint_configuration(&checks),
                        },
                    )
                }
            },
            (Awaiting::ArtifactWrite, Event::ArtifactWritten) => {
                self.awaiting = Awaiting::Linter;
                self.invocations = self.invocations + 1;
                let mut arguments: Vec<String> = Vec::new();
                arguments.push(self.tool_path.clone());
                arguments.push(String::from_str("."));
                arguments.push(String::from_str("-fix"));
                arguments.push(String::from_str("-j 10"));
                proof {
                    assert(string_views(arguments@) =~= seq![
                        self.tool_path@,
                        "."@,
                        "-fix"@,
                        "-j 10"@,
                    ]);
                }
                Ok(
                    Action::RunLinter {
                        program: String::from_str("python"),
                        arguments,
                        working_directory: self.project_path.clone(),
                    },
                )
            },
            (Awaiting::ArtifactWrite, Event::ArtifactWriteFailed) => {
                self.phase = RunPhase::Failed;
                Ok(Action::Stop)
            },
            (Awaiting::Linter, Event::LinterFinished(status)) => {
                let ghost before = self@;
                if status != LinterStatus::Succeeded {
                    self.failures.push(FixFailure { fix: self.completed, status });
                }
                self.completed = self.completed + 1;
                self.awaiting = Awaiting::NextFix;
                proof {
                    assert(self@.failures == before.failures_with(status));
                    assert(self@.failures_wf()) by {
                        if status != LinterStatus::Succeeded {
                            assert forall|i: int, j: int|
                                0 <= i < j < self@.failures.len() implies (
                            #[trigger] self@.failures[i]).fix < (
                            #[trigger] self@.failures[j]).fix by {
                                if j == before.failures.len() {
                                    assert(self@.failures[i] == before.failures[i]);
                                }
                            }
                        }
                    }
                }
                if self.completed == self.enabled.len() {
                    self.phase = RunPhase::Completed;
                    Ok(Action::Stop)
                } else {
                    Ok(Action::Continue)
                }
            },
            _ => Err(StepError::UnexpectedEvent),
        }
    }

    /// Where the orchestrator stands.
    pub fn phase(&self) -> (phase: RunPhase)
        ensures
            phase == self@.phase,
    {
        self.phase
    }

    /// Whether a run is under way.
    pub fn is_running(&self) -> (running: bool)
        ensures
            running == self@.is_running(),
    {
        self.phase == RunPhase::Running
    }

    /// Whether the run that is under way, or the last run, was asked to
    /// stop.
    pub fn cancel_requested(&self) -> (requested: bool)
        ensures
            requested == self@.cancel_requested,
    {
        self.cancel_requested
    }

    /// How many fixes the current or last run has done.
    pub fn completed_fixes(&self) -> (completed: usize)
        ensures
            completed == self@.completed,
    {
        self.completed
    }

    /// How many fixes the current or last run consists of.
    pub fn enabled_fixes(&self) -> (total: usize)
        ensures
            total == self@.enabled.len(),
    {
        assert(self.enabled@.len() == string_views(self.enabled@).len());
        self.enabled.len()
    }

    /// How often the current or last run had the linter started.
    pub fn invocations(&self) -> (invocations: usize)
        ensures
            invocations == self@.invocations,
    {
        self.invocations
    }

    /// The linter runs of the current or last run that did not succeed, in
    /// order.
    pub fn failures(&self) -> (failures: Vec<FixFailure>)
        ensures
            failures@ == self@.failures,
    {
        let mut failures: Vec<FixFailure> = Vec::new();
        let mut i: usize = 0;
        while i < self.failures.len()
            invariant
                i <= self.failures.len(),
                failures@ == self.failures@.take(i as int),
            decreases self.failures.len() - i,
        {
            failures.push(self.failures[i]);
            assert(self.failures@.take(i + 1) =~= self.failures@.take(i as int).push(
                self.failures@[i as int],
            ));
            i += 1;
        }
        assert(self.failures@.take(i as int) =~= self.failures@);
        failures
    }
}

} // verus!
