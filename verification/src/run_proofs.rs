//! What holds of every run, proved from the state machine.

use vstd::prelude::*;
use crate::progress::{lemma_le_same_total, Progress};
use crate::run_config::{enabled_names, lemma_enabled_names_of_none, RunConfigurationView};
use crate::run_state::{
    lemma_transitions_keep_wf,
    ActionView,
    Awaiting,
    Event,
    FixFailure,
    LinterStatus,
    RunPhase,
    RunState,
};

verus! {

/// What can happen to a run once it is started: the caller asks it to stop,
/// or its driver reports an event.
pub enum RunInput {
    Cancel,
    Report(Event),
}

impl RunState {
    /// The state after one input.
    pub open spec fn apply(self, input: RunInput) -> RunState {
        match input {
            RunInput::Cancel => self.cancel(),
            RunInput::Report(event) => self.after(event),
        }
    }

    /// The state after a sequence of inputs, taken in order.
    pub open spec fn apply_all(self, inputs: Seq<RunInput>) -> RunState
        decreases inputs.len(),
    {
        if inputs.len() == 0 {
            self
        } else {
            self.apply_all(inputs.drop_last()).apply(inputs.last())
        }
    }

    /// The state after a driver took the run through one fix for each of the
    /// given linter reports: asked for the fix, wrote the lint
    /// configuration, and ran the linter.
    pub open spec fn driven(self, reports: Seq<LinterStatus>) -> RunState
        decreases reports.len(),
    {
        if reports.len() == 0 {
            self
        } else {
            self.driven(reports.drop_last()).after(Event::NextFix).after(
                Event::ArtifactWritten,
            ).after(Event::LinterFinished(reports.last()))
        }
    }
}

/// The reports that are not a success, each with the place of its fix.
pub open spec fn failures_among(reports: Seq<LinterStatus>) -> Seq<FixFailure>
    decreases reports.len(),
{
    if reports.len() == 0 {
        Seq::empty()
    } else if reports.last() == LinterStatus::Succeeded {
        failures_among(reports.drop_last())
    } else {
        failures_among(reports.drop_last()).push(
            FixFailure { fix: (reports.len() - 1) as usize, status: reports.last() },
        )
    }
}

/// One input never takes progress back: the fixes of the run stay the same,
/// and the number of those done does not fall.
pub proof fn lemma_input_keeps_progress(state: RunState, input: RunInput)
    requires
        state.wf(),
    ensures
        state.apply(input).wf(),
        state.apply(input).enabled == state.enabled,
        state.apply(input).progress().total == state.progress().total,
        state.progress().completed <= state.apply(input).progress().completed,
        state.progress().le(state.apply(input).progress()),
        state.progress().wf(),
{
    let config = RunConfigurationView {
        tool_path: Seq::empty(),
        project_path: Seq::empty(),
        fixes: Seq::empty(),
    };
    assert(enabled_names(config.fixes).len() == 0) by {
        lemma_enabled_names_of_none(config.fixes);
    }
    match input {
        RunInput::Cancel => {
            lemma_transitions_keep_wf(state, config, Event::NextFix);
        },
        RunInput::Report(event) => {
            lemma_transitions_keep_wf(state, config, event);
        },
    }
    lemma_le_same_total(state.progress(), state.apply(input).progress());
}

/// Over any sequence of inputs the state stays one that the orchestrator
/// can be in, and the fixes of the run stay the same.
pub proof fn lemma_inputs_keep_wf(state: RunState, inputs: Seq<RunInput>)
    requires
        state.wf(),
    ensures
        state.apply_all(inputs).wf(),
        state.apply_all(inputs).enabled == state.enabled,
        state.apply_all(inputs).progress().total == state.progress().total,
    decreases inputs.len(),
{
    if inputs.len() > 0 {
        lemma_inputs_keep_wf(state, inputs.drop_last());
        lemma_input_keeps_progress(state.apply_all(inputs.drop_last()), inputs.last());
    }
}

/// Progress never decreases within a run: of the states that a sequence of
/// inputs leads through, a later one is at least as far as an earlier one.
pub proof fn lemma_progress_never_decreases(
    state: RunState,
    inputs: Seq<RunInput>,
    earlier: int,
    later: int,
)
    requires
        state.wf(),
        0 <= earlier <= later <= inputs.len(),
    ensures
        state.apply_all(inputs.take(earlier)).progress().le(
            state.apply_all(inputs.take(later)).progress(),
        ),
    decreases later - earlier,
{
    let from = state.apply_all(inputs.take(earlier));
    let to = state.apply_all(inputs.take(later));
    lemma_inputs_keep_wf(state, inputs.take(earlier));
    lemma_inputs_keep_wf(state, inputs.take(later));
    lemma_input_keeps_progress(from, RunInput::Cancel);
    if earlier < later {
        let before = state.apply_all(inputs.take(later - 1));
        lemma_inputs_keep_wf(state, inputs.take(later - 1));
        lemma_progress_never_decreases(state, inputs, earlier, later - 1);
        assert(inputs.take(later).drop_last() =~= inputs.take(later - 1));
        assert(inputs.take(later).last() == inputs[later - 1]);
        assert(to == before.apply(inputs[later - 1]));
        lemma_input_keeps_progress(before, inputs[later - 1]);
        lemma_le_same_total(from.progress(), before.progress());
        lemma_le_same_total(from.progress(), to.progress());
    } else {
        lemma_le_same_total(from.progress(), to.progress());
    }
}

/// A completed run stands at full progress, and has run the linter once for
/// each of its fixes.
pub proof fn lemma_completed_is_full(state: RunState)
    requires
        state.wf(),
        state.phase == RunPhase::Completed,
    ensures
        state.progress().is_full(),
        state.invocations == state.enabled.len(),
{
}

/// A run that is neither asked to stop nor told that the lint configuration
/// could not be written is, whatever else it is told, still under way or
/// completed, and if completed then at full progress.
pub proof fn lemma_undisturbed_run_ends_completed(
    config: RunConfigurationView,
    inputs: Seq<RunInput>,
)
    requires
        enabled_names(config.fixes).len() <= usize::MAX,
        forall|i: int|
            0 <= i < inputs.len() ==> #[trigger] inputs[i] != RunInput::Cancel && inputs[i]
                != RunInput::Report(Event::ArtifactWriteFailed),
    ensures
        ({
            let last = RunState::started(config).apply_all(inputs);
            &&& last.wf()
            &&& !last.cancel_requested
            &&& last.phase == RunPhase::Running || last.phase == RunPhase::Completed
            &&& !last.is_running() ==> last.progress().is_full()
        }),
    decreases inputs.len(),
{
    let first = RunState::started(config);
    lemma_transitions_keep_wf(RunState::idle(), config, Event::NextFix);
    assert(first == RunState::idle().start(config));
    lemma_inputs_keep_wf(first, inputs);
    if inputs.len() > 0 {
        assert forall|i: int| 0 <= i < inputs.drop_last().len() implies #[trigger] inputs.drop_last()[i]
            != RunInput::Cancel && inputs.drop_last()[i] != RunInput::Report(
            Event::ArtifactWriteFailed,
        ) by {
            assert(inputs.drop_last()[i] == inputs[i]);
        }
        lemma_undisturbed_run_ends_completed(config, inputs.drop_last());
        assert(inputs[inputs.len() - 1] != RunInput::Cancel);
    }
}

/// A driver that takes a fresh run through each of its fixes completes it,
/// whatever the linter reports: the run ends at full progress, with one
/// linter run for each fix and a record of each report that was not a
/// success. Before the last fix it is still under way.
pub proof fn lemma_driven_run_completes(config: RunConfigurationView, reports: Seq<LinterStatus>)
    requires
        enabled_names(config.fixes).len() <= usize::MAX,
        reports.len() <= enabled_names(config.fixes).len(),
        0 < enabled_names(config.fixes).len(),
    ensures
        ({
            let last = RunState::started(config).driven(reports);
            let total = enabled_names(config.fixes).len();
            &&& last.wf()
            &&& last.enabled == enabled_names(config.fixes)
            &&& last.completed == reports.len()
            &&& last.invocations == reports.len()
            &&& last.failures == failures_among(reports)
            &&& !last.cancel_requested
            &&& last.progress() == Progress {
                completed: reports.len() as usize,
                total: total as usize,
            }
            &&& reports.len() < total ==> last.phase == RunPhase::Running && last.awaiting
                == Awaiting::NextFix
            &&& reports.len() == total ==> last.phase == RunPhase::Completed
                && last.progress().is_full()
        }),
    decreases reports.len(),
{
    let first = RunState::started(config);
    lemma_transitions_keep_wf(RunState::idle(), config, Event::NextFix);
    assert(first == RunState::idle().start(config));
    if reports.len() > 0 {
        lemma_driven_run_completes(config, reports.drop_last());
        let before = first.driven(reports.drop_last());
        let asked = before.after(Event::NextFix);
        let written = asked.after(Event::ArtifactWritten);
        let last = written.after(Event::LinterFinished(reports.last()));
        lemma_transitions_keep_wf(before, config, Event::NextFix);
        lemma_transitions_keep_wf(asked, config, Event::ArtifactWritten);
        lemma_transitions_keep_wf(written, config, Event::LinterFinished(reports.last()));
        assert(before.expects(Event::NextFix));
        assert(asked.expects(Event::ArtifactWritten));
        assert(written.expects(Event::LinterFinished(reports.last())));
    }
}

/// A run in which no fix is selected is completed as soon as its driver
/// asks for the first fix: it goes from no progress to full progress and
/// the linter is never run, whether or not the run was asked to stop.
pub proof fn lemma_run_without_fixes_completes(config: RunConfigurationView, cancel: bool)
    requires
        forall|i: int| 0 <= i < config.fixes.len() ==> !(#[trigger] config.fixes[i]).enabled,
    ensures
        ({
            let first = if cancel {
                RunState::started(config).cancel()
            } else {
                RunState::started(config)
            };
            &&& first.is_running()
            &&& first.progress().is_zero()
            &&& first.after(Event::NextFix).phase == RunPhase::Completed
            &&& first.after(Event::NextFix).progress().is_full()
            &&& first.after(Event::NextFix).invocations == 0
            &&& first.response(Event::NextFix) == ActionView::Stop
        }),
{
    lemma_enabled_names_of_none(config.fixes);
}

/// A run with at least one fix that is asked to stop before its driver asks
/// for the first fix is cancelled at no progress, and the linter is never
/// run.
pub proof fn lemma_cancel_before_first_fix(config: RunConfigurationView)
    requires
        0 < enabled_names(config.fixes).len() <= usize::MAX,
    ensures
        ({
            let asked = RunState::started(config).cancel();
            &&& asked.after(Event::NextFix).phase == RunPhase::Cancelled
            &&& asked.after(Event::NextFix).progress().is_zero()
            &&& asked.after(Event::NextFix).invocations == 0
            &&& asked.response(Event::NextFix) == ActionView::Stop
        }),
{
}

/// A run that is asked to stop between two fixes, after `k` of its fixes
/// are done, is cancelled there: its progress stays at `k` of the fixes of
/// the run, and the linter was run exactly `k` times.
pub proof fn lemma_cancel_between_fixes(state: RunState)
    requires
        state.wf(),
        state.is_running(),
        state.awaiting == Awaiting::NextFix,
        0 < state.enabled.len(),
    ensures
        ({
            let last = state.cancel().after(Event::NextFix);
            &&& last.phase == RunPhase::Cancelled
            &&& last.completed == state.completed
            &&& last.progress() == state.progress()
            &&& last.progress() == Progress {
                completed: state.completed as usize,
                total: state.enabled.len() as usize,
            }
            &&& last.invocations == state.completed
            &&& state.cancel().response(Event::NextFix) == ActionView::Stop
        }),
{
}

/// A request to stop that arrives while a fix is being applied lets that
/// fix finish and count, and takes effect before the next one; after the
/// last fix it has no effect and the run is completed.
pub proof fn lemma_cancel_during_fix(state: RunState, status: LinterStatus)
    requires
        state.wf(),
        state.is_running(),
        state.awaiting == Awaiting::Linter,
    ensures
        ({
            let done = state.cancel().after(Event::LinterFinished(status));
            &&& done.completed == state.completed + 1
            &&& done.invocations == state.completed + 1
            &&& state.completed + 1 == state.enabled.len() ==> done.phase == RunPhase::Completed
            &&& state.completed + 1 < state.enabled.len() ==> {
                &&& done.is_running()
                &&& done.after(Event::NextFix).phase == RunPhase::Cancelled
                &&& done.after(Event::NextFix).progress() == Progress {
                    completed: (state.completed + 1) as usize,
                    total: state.enabled.len() as usize,
                }
                &&& done.after(Event::NextFix).invocations == state.completed + 1
            }
        }),
{
}

/// A linter that does not succeed does not stop the run: the fix counts as
/// done, exactly one failure is recorded for it, and the run goes on to the
/// next fix or, after the last, is completed.
pub proof fn lemma_linter_failure_is_recorded(state: RunState, status: LinterStatus)
    requires
        state.wf(),
        state.is_running(),
        state.awaiting == Awaiting::Linter,
        status != LinterStatus::Succeeded,
    ensures
        ({
            let done = state.after(Event::LinterFinished(status));
            &&& done.phase == RunPhase::Running || done.phase == RunPhase::Completed
            &&& done.completed == state.completed + 1
            &&& done.failures == state.failures.push(
                FixFailure { fix: state.completed as usize, status },
            )
        }),
{
}

/// When the lint configuration cannot be written the run has failed: its
/// progress stays where it was, the linter is not run for this fix, and no
/// event is taken any more, so the fixes that remain are never tried.
pub proof fn lemma_write_failure_stops_run(state: RunState)
    requires
        state.wf(),
        state.is_running(),
        state.awaiting == Awaiting::ArtifactWrite,
    ensures
        ({
            let failed = state.after(Event::ArtifactWriteFailed);
            &&& failed.phase == RunPhase::Failed
            &&& failed.progress() == state.progress()
            &&& failed.completed == state.completed
            &&& failed.invocations == state.completed
            &&& state.response(Event::ArtifactWriteFailed) == ActionView::Stop
            &&& forall|event: Event| !failed.expects(event) && failed.after(event) == failed
        }),
{
}

/// Asking a run to stop twice is the same as asking once.
pub proof fn lemma_cancel_idempotent(state: RunState)
    ensures
        state.cancel().cancel() == state.cancel(),
{
}

} // verus!
