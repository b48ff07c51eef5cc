//! The run of the selected fixes as a state machine over plain values.
//!
//! A run takes the selected fixes one after the other. For each it has the
//! lint configuration written that selects this one check, then has the
//! linter run in the project directory, and counts the fix as done whatever
//! the linter reported. Between two fixes, and nowhere else, it looks at the
//! request to cancel. The machine decides; what it decides is carried out by
//! a driver, which reports back what happened.

use vstd::prelude::*;
use crate::lint_config::lint_configuration_text;
use crate::progress::Progress;
use crate::run_config::{enabled_names, RunConfigurationView};

verus! {

/// Where the orchestrator stands.
#[derive(Clone, Copy, Debug, PartialEq, Eq, Structural)]
pub enum RunPhase {
    /// No run was started yet.
    Idle,
    /// A run is under way.
    Running,
    /// The last run went through all of its fixes.
    Completed,
    /// The last run was cancelled between two fixes.
    Cancelled,
    /// The last run stopped because the lint configuration could not be
    /// written.
    Failed,
}

/// What a run that is under way waits for.
#[derive(Clone, Copy, Debug, PartialEq, Eq, Structural)]
pub enum Awaiting {
    /// The driver to ask for the next fix.
    NextFix,
    /// The outcome of writing the lint configuration.
    ArtifactWrite,
    /// The linter to come back.
    Linter,
}

/// How the linter came back.
#[derive(Clone, Copy, Debug, PartialEq, Eq, Structural)]
pub enum LinterStatus {
    /// It ran and reported success.
    Succeeded,
    /// It ran and reported failure.
    ExitedWithFailure,
    /// It could not be started.
    LaunchFailed,
}

/// What the driver reports to the run.
#[derive(Clone, Copy, Debug, PartialEq, Eq, Structural)]
pub enum Event {
    /// The driver stands between two fixes, or before the first, and asks
    /// what to do.
    NextFix,
    /// The lint configuration was written.
    ArtifactWritten,
    /// The lint configuration could not be written.
    ArtifactWriteFailed,
    /// The linter came back.
    LinterFinished(LinterStatus),
}

/// A linter run that did not succeed. It is recorded; the run goes on.
#[derive(Clone, Copy, Debug, PartialEq, Eq, Structural)]
pub struct FixFailure {
    /// The place of the fix among the selected fixes of the run, from zero.
    pub fix: usize,
    /// How the linter came back; never `Succeeded`.
    pub status: LinterStatus,
}

/// The mathematical value of what the run asks its driver to do.
pub enum ActionView {
    WriteArtifact { directory: Seq<char>, file_name: Seq<char>, contents: Seq<char> },
    RunLinter { program: Seq<char>, arguments: Seq<Seq<char>>, working_directory: Seq<char> },
    Continue,
    Stop,
}

/// The name of the lint configuration file inside the project directory.
pub open spec fn artifact_file_name() -> Seq<char> {
    ".clang-tidy"@
}

/// The program that is started to run the linter.
pub open spec fn linter_program() -> Seq<char> {
    "python"@
}

/// The arguments of the linter: the path of the tool, the current directory
/// as what to work on, the switch that applies the fixes, and the number of
/// parallel jobs.
pub open spec fn linter_arguments(tool_path: Seq<char>) -> Seq<Seq<char>> {
    seq![tool_path, "."@, "-fix"@, "-j 10"@]
}

/// The state of the orchestrator as a mathematical value.
pub struct RunState {
    pub phase: RunPhase,
    pub awaiting: Awaiting,
    pub tool_path: Seq<char>,
    pub project_path: Seq<char>,
    /// The names of the fixes of the run, in order.
    pub enabled: Seq<Seq<char>>,
    /// How many of them are done.
    pub completed: nat,
    pub cancel_requested: bool,
    /// How often the linter was started.
    pub invocations: nat,
    /// The linter runs that did not succeed, in order.
    pub failures: Seq<FixFailure>,
}

impl RunState {
    /// The state before any run.
    pub open spec fn idle() -> RunState {
        RunState {
            phase: RunPhase::Idle,
            awaiting: Awaiting::NextFix,
            tool_path: Seq::empty(),
            project_path: Seq::empty(),
            enabled: Seq::empty(),
            completed: 0,
            cancel_requested: false,
            invocations: 0,
            failures: Seq::empty(),
        }
    }

    /// The state of a run that was just started from `config`: nothing is
    /// done, nothing was asked of the driver, no cancellation is requested.
    pub open spec fn started(config: RunConfigurationView) -> RunState {
        RunState {
            phase: RunPhase::Running,
            awaiting: Awaiting::NextFix,
            tool_path: config.tool_path,
            project_path: config.project_path,
            enabled: enabled_names(config.fixes),
            completed: 0,
            cancel_requested: false,
            invocations: 0,
            failures: Seq::empty(),
        }
    }

    pub open spec fn is_running(self) -> bool {
        self.phase == RunPhase::Running
    }

    /// The recorded failures name fixes that are done, each at most once
    /// and in order, and none of them is a success.
    pub open spec fn failures_wf(self) -> bool {
        &&& self.failures.len() <= self.completed
        &&& forall|i: int|
            0 <= i < self.failures.len() ==> {
                &&& (#[trigger] self.failures[i]).fix < self.completed
                &&& self.failures[i].status != LinterStatus::Succeeded
            }
        &&& forall|i: int, j: int|
            0 <= i < j < self.failures.len() ==> (#[trigger] self.failures[i]).fix < (
            #[trigger] self.failures[j]).fix
    }

    /// What holds of every state that the orchestrator can be in.
    pub open spec fn wf(self) -> bool {
        &&& self.enabled.len() <= usize::MAX
        &&& self.completed <= self.enabled.len()
        &&& self.failures_wf()
        &&& match self.phase {
            RunPhase::Idle => {
                &&& self.enabled.len() == 0
                &&& self.invocations == 0
                &&& !self.cancel_requested
            },
            RunPhase::Running => match self.awaiting {
                Awaiting::NextFix => {
                    &&& self.invocations == self.completed
                    &&& self.enabled.len() > 0 ==> self.completed < self.enabled.len()
                },
                Awaiting::ArtifactWrite => {
                    &&& self.invocations == self.completed
                    &&& self.completed < self.enabled.len()
                },
                Awaiting::Linter => {
                    &&& self.invocations == self.completed + 1
                    &&& self.completed < self.enabled.len()
                },
            },
            RunPhase::Completed => {
                &&& self.completed == self.enabled.len()
                &&& self.invocations == self.completed
            },
            RunPhase::Cancelled => {
                &&& self.completed < self.enabled.len()
                &&& self.invocations == self.completed
                &&& self.cancel_requested
            },
            RunPhase::Failed => {
                &&& self.completed < self.enabled.len()
                &&& self.invocations == self.completed
            },
        }
    }

    /// The progress of the run: the fixes done out of the fixes of the run.
    /// A run without fixes has nothing done until it is completed, and all
    /// done from then on.
    pub open spec fn progress(self) -> Progress {
        if self.enabled.len() == 0 {
            Progress {
                completed: if self.phase == RunPhase::Completed {
                    1
                } else {
                    0
                },
                total: 1,
            }
        } else {
            Progress { completed: self.completed as usize, total: self.enabled.len() as usize }
        }
    }

    /// The state after `start`: a fresh run unless one is under way, which
    /// is left as it is.
    pub open spec fn start(self, config: RunConfigurationView) -> RunState {
        if self.is_running() {
            self
        } else {
            RunState::started(config)
        }
    }

    /// The state after `cancel`: the request is noted while a run is under
    /// way, and ignored otherwise.
    pub open spec fn cancel(self) -> RunState {
        if self.is_running() {
            RunState { cancel_requested: true, ..self }
        } else {
            self
        }
    }

    /// Whether the run waits for this event.
    pub open spec fn expects(self, event: Event) -> bool {
        self.is_running() && match self.awaiting {
            Awaiting::NextFix => event == Event::NextFix,
            Awaiting::ArtifactWrite => event == Event::ArtifactWritten || event
                == Event::ArtifactWriteFailed,
            Awaiting::Linter => event is LinterFinished,
        }
    }

    /// The failures after the linter came back with `status` for the fix
    /// that was being applied.
    pub open spec fn failures_with(self, status: LinterStatus) -> Seq<FixFailure> {
        if status == LinterStatus::Succeeded {
            self.failures
        } else {
            self.failures.push(FixFailure { fix: self.completed as usize, status })
        }
    }

    /// The state after an event that the run waits for. Any other event
    /// leaves the state as it is.
    pub open spec fn after(self, event: Event) -> RunState {
        if !self.expects(event) {
            self
        } else {
            match event {
                Event::NextFix => {
                    if self.enabled.len() == 0 {
                        RunState { phase: RunPhase::Completed, ..self }
                    } else if self.cancel_requested {
                        RunState { phase: RunPhase::Cancelled, ..self }
                    } else {
                        RunState { awaiting: Awaiting::ArtifactWrite, ..self }
                    }
                },
                Event::ArtifactWritten => RunState {
                    awaiting: Awaiting::Linter,
                    invocations: self.invocations + 1,
                    ..self
                },
                Event::ArtifactWriteFailed => RunState { phase: RunPhase::Failed, ..self },
                Event::LinterFinished(status) => RunState {
                    phase: if self.completed + 1 == self.enabled.len() {
                        RunPhase::Completed
                    } else {
                        RunPhase::Running
                    },
                    awaiting: Awaiting::NextFix,
                    completed: self.completed + 1,
                    failures: self.failures_with(status),
                    ..self
                },
            }
        }
    }

    /// What the driver is asked to do after an event that the run waits
    /// for.
    pub open spec fn response(self, event: Event) -> ActionView {
        let next = self.after(event);
        if !next.is_running() {
            ActionView::Stop
        } else {
            match next.awaiting {
                Awaiting::NextFix => ActionView::Continue,
                Awaiting::ArtifactWrite => ActionView::WriteArtifact {
                    directory: self.project_path,
                    file_name: artifact_file_name(),
                    contents: lint_configuration_text(seq![self.enabled[self.completed as int]]),
                },
                Awaiting::Linter => ActionView::RunLinter {
                    program: linter_program(),
                    arguments: linter_arguments(self.tool_path),
                    working_directory: self.project_path,
                },
            }
        }
    }
}

/// Every step of a run leads from one state that the orchestrator can be in
/// to another.
pub proof fn lemma_transitions_keep_wf(state: RunState, config: RunConfigurationView, event: Event)
    requires
        state.wf(),
        enabled_names(config.fixes).len() <= usize::MAX,
    ensures
        RunState::idle().wf(),
        state.start(config).wf(),
        state.cancel().wf(),
        state.after(event).wf(),
{
    let next = state.after(event);
    if state.expects(event) {
        match event {
            Event::LinterFinished(status) => {
                assert(next.failures_wf()) by {
                    if status != LinterStatus::Succeeded {
                        assert forall|i: int, j: int|
                            0 <= i < j < next.failures.len() implies (
                        #[trigger] next.failures[i]).fix < (#[trigger] next.failures[j]).fix by {
                            if j == state.failures.len() {
                                assert(next.failures[i] == state.failures[i]);
                            }
                        }
                    }
                }
            },
            _ => {},
        }
    }
}

} // verus!
