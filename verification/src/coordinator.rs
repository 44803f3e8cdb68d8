//! The processing coordinator: the life of one task, from submission to
//! its terminal record.
//!
//! A task is a state machine. Its caller carries out the action that the
//! coordinator asks for and reports how that went; the coordinator
//! decides what the task's record becomes and what to do next. Steps run one
//! after another, the first failure ends the task, and a task that has ended
//! asks for nothing more.

use crate::command::{
    action_for, flash_copy_name, rendition_name, step_action, Action, ActionView, ToolOutcome,
    ToolOutcomeView,
};
use crate::error::{Failure, ProcessError};
use crate::format::{format_verdict, validate_format, DeliveryTarget, Dimensions};
use crate::plan::{
    lemma_plan_never_upscales, lemma_progress_at, lemma_steps_shape, plan_for, plan_steps,
    progress_at, rendition_steps, step_progress, steps_for, Step,
};
use crate::probe::{probe_verdict, read_probe};
use crate::status::{
    completed_record, error_record, lemma_state_names, processing_record, starting_record,
    TaskState, TaskStatus, TaskStatusView,
};
use crate::store::StatusStore;
use crate::text::{decimal, decimal_string, join};
use vstd::prelude::*;
use vstd::string::*;

verus! {

/// A request to process a video, as mathematical values.
pub struct ProcessRequestView {
    pub video_id: Seq<char>,
    pub task_id: Seq<char>,
    pub target_format: Seq<char>,
    pub skip_thumbnail: bool,
}

/// A request to process a video. `video_id` is the path of the source,
/// `task_id` the name under which the task's record is kept.
#[derive(Clone, Debug, PartialEq, Eq)]
pub struct ProcessRequest {
    pub video_id: String,
    pub task_id: String,
    pub target_format: String,
    pub skip_thumbnail: bool,
}

impl View for ProcessRequest {
    type V = ProcessRequestView;

    open spec fn view(&self) -> ProcessRequestView {
        ProcessRequestView {
            video_id: self.video_id@,
            task_id: self.task_id@,
            target_format: self.target_format@,
            skip_thumbnail: self.skip_thumbnail,
        }
    }
}

/// The answer to a submission, given before any work is done.
#[derive(Clone, Debug, PartialEq, Eq)]
pub struct ProcessResponse {
    pub status: String,
    pub message: String,
    pub task_id: String,
}

impl ProcessResponse {
    /// The answer to an accepted submission.
    pub fn accepted(task_id: &str) -> (response: ProcessResponse)
        ensures
            response.status@ == "accepted"@,
            response.message@ == "Processing started in background"@,
            response.task_id@ == task_id@,
    {
        ProcessResponse {
            status: String::from_str("accepted"),
            message: String::from_str("Processing started in background"),
            task_id: String::from_str(task_id),
        }
    }
}

/// The part of its life that a task is in.
#[derive(Clone, Copy, Debug, PartialEq, Eq, Structural)]
pub enum Phase {
    /// The source is being probed; no step has been planned yet.
    Probing,
    /// The step at the cursor is being carried out.
    Running,
    /// The task has ended, in success or in failure.
    Finished,
}

/// What is shown while `step` is carried out.
pub open spec fn step_message(step: Step) -> Seq<char> {
    match step {
        Step::Encode(height) => "Transcoding to "@ + decimal(height as nat) + "p..."@,
        Step::Copy => "Optimizing flash video (copy)..."@,
        Step::Thumbnail => "Generating thumbnail..."@,
    }
}

/// The record written before step number `cursor` of `steps` is carried
/// out.
pub open spec fn step_record(steps: Seq<Step>, cursor: nat) -> TaskStatusView {
    processing_record(progress_at(cursor, steps.len()), step_message(steps[cursor as int]))
}

/// The failure that an unsuccessful outcome of `step` amounts to.
pub open spec fn step_failure(step: Step, outcome: ToolOutcomeView) -> Failure {
    match step {
        Step::Encode(height) => Failure::EncodeFailure(height),
        Step::Copy => Failure::CopyFailure(outcome.detail),
        Step::Thumbnail => Failure::ThumbnailFailure,
    }
}

/// The state of one task, as mathematical values.
pub struct CoordinatorView {
    pub task_id: Seq<char>,
    pub video_path: Seq<char>,
    pub target_format: Seq<char>,
    pub skip_thumbnail: bool,
    pub phase: Phase,
    pub steps: Seq<Step>,
    pub cursor: nat,
    pub record: TaskStatusView,
    pub failure: Option<Failure>,
}

impl CoordinatorView {
    /// What holds of every task at every moment: a task that is being
    /// probed shows the starting record, a task that is running has at most
    /// six steps and shows the record of the step at its cursor, and a task
    /// that has ended shows the completed record or the message of the
    /// failure that ended it. A task has a failure only once it has ended.
    pub open spec fn wf(self) -> bool {
        match self.phase {
            Phase::Probing => self.record == starting_record() && self.steps.len() == 0
                && self.cursor == 0 && self.failure is None,
            Phase::Running => self.cursor < self.steps.len() <= 6 && self.record == step_record(
                self.steps,
                self.cursor,
            ) && self.failure is None,
            Phase::Finished => match self.failure {
                None => self.record == completed_record(),
                Some(failure) => self.record.progress < 100 && self.record == error_record(
                    self.record.progress,
                    failure.message(),
                ),
            },
        }
    }

    /// How the task has ended: `None` while it has not, then `Ok` if every
    /// step succeeded and otherwise the failure that ended it.
    pub open spec fn result(self) -> Option<Result<(), Failure>> {
        match (self.phase, self.failure) {
            (Phase::Finished, None) => Some(Ok(())),
            (Phase::Finished, Some(failure)) => Some(Err(failure)),
            _ => None,
        }
    }

    /// The action that the task is waiting for.
    pub open spec fn pending(self) -> ActionView {
        match self.phase {
            Phase::Probing => ActionView::Probe { path: self.video_path },
            Phase::Running => step_action(self.video_path, self.steps[self.cursor as int]),
            Phase::Finished => ActionView::Done,
        }
    }

    /// The task after it has failed: ended, with the failure's message in
    /// its record and its progress where it was.
    pub open spec fn fail(self, failure: Failure) -> CoordinatorView {
        CoordinatorView {
            phase: Phase::Finished,
            record: error_record(self.record.progress, failure.message()),
            failure: Some(failure),
            ..self
        }
    }

    /// The task as it sets out on step number `cursor` of `steps`.
    pub open spec fn begin(self, steps: Seq<Step>, cursor: nat) -> CoordinatorView {
        CoordinatorView {
            phase: Phase::Running,
            steps,
            cursor,
            record: step_record(steps, cursor),
            ..self
        }
    }

    /// The task after its last step has succeeded.
    pub open spec fn complete(self) -> CoordinatorView {
        CoordinatorView { phase: Phase::Finished, record: completed_record(), ..self }
    }

    /// The task after the action it was waiting for has gone as `outcome`
    /// says.
    ///
    /// While probing, a failed probe, unreadable output, an unknown format
    /// or a picture of the wrong shape ends the task; otherwise the steps
    /// are planned and the first one begins. While running, a failed step
    /// ends the task, a successful one leads to the next step or, after the
    /// last, to completion. A task that has ended stays as it is.
    pub open spec fn after(self, outcome: ToolOutcomeView) -> CoordinatorView {
        match self.phase {
            Phase::Probing => match probe_verdict(outcome) {
                Err(failure) => self.fail(failure),
                Ok(shape) => match format_verdict(shape, self.target_format) {
                    Err(failure) => self.fail(failure),
                    Ok(target) => self.begin(
                        steps_for(target, shape.height, self.skip_thumbnail),
                        0,
                    ),
                },
            },
            Phase::Running => if !outcome.success {
                self.fail(step_failure(self.steps[self.cursor as int], outcome))
            } else if self.cursor + 1 < self.steps.len() {
                self.begin(self.steps, self.cursor + 1)
            } else {
                self.complete()
            },
            Phase::Finished => self,
        }
    }

    /// The most outcomes that the task can still take in before it has
    /// ended: the probe's and one for each of at most six steps while it is
    /// being probed, one for each step from the cursor on while it is
    /// running.
    pub open spec fn outstanding(self) -> nat {
        match self.phase {
            Phase::Probing => 7,
            Phase::Running => (self.steps.len() - self.cursor) as nat,
            Phase::Finished => 0,
        }
    }

    /// The task after a whole series of outcomes, one per action.
    pub open spec fn after_all(self, outcomes: Seq<ToolOutcomeView>) -> CoordinatorView
        decreases outcomes.len(),
    {
        if outcomes.len() == 0 {
            self
        } else {
            self.after_all(outcomes.drop_last()).after(outcomes.last())
        }
    }
}

/// What the store holds after a task has taken in an outcome: unless the
/// task had ended before, its new record under its id, and everything else
/// as it was.
pub open spec fn store_after(
    store: Map<Seq<char>, TaskStatusView>,
    state: CoordinatorView,
    outcome: ToolOutcomeView,
) -> Map<Seq<char>, TaskStatusView> {
    if state.phase == Phase::Finished {
        store
    } else {
        store.insert(state.task_id, state.after(outcome).record)
    }
}

/// The task that a request gives rise to: waiting for the probe of the
/// source, with the starting record.
pub open spec fn submitted(request: ProcessRequestView) -> CoordinatorView {
    CoordinatorView {
        task_id: request.task_id,
        video_path: request.video_id,
        target_format: request.target_format,
        skip_thumbnail: request.skip_thumbnail,
        phase: Phase::Probing,
        steps: Seq::empty(),
        cursor: 0,
        record: starting_record(),
        failure: None,
    }
}

/// The record of a step is a well-formed `processing` record, and a later
/// step shows no less progress than an earlier one.
pub proof fn lemma_step_record(steps: Seq<Step>, cursor: nat, later: nat)
    requires
        cursor <= later < steps.len(),
    ensures
        step_record(steps, cursor).wf(),
        step_record(steps, cursor).state() == Some(TaskState::Processing),
        step_record(steps, cursor).progress <= step_record(steps, later).progress < 100,
{
    lemma_state_names(TaskState::Processing);
    lemma_progress_at(cursor, later, steps.len());
}

/// Every record that a task shows is well formed. In particular its
/// progress is 100 exactly when its status is `completed`, and it is
/// terminal exactly when the task has ended.
pub proof fn lemma_record_is_well_formed(state: CoordinatorView)
    requires
        state.wf(),
    ensures
        state.record.wf(),
        state.record.progress == 100 <==> state.record.state() == Some(TaskState::Completed),
        state.record.is_terminal() <==> state.phase == Phase::Finished,
{
    lemma_state_names(TaskState::Starting);
    lemma_state_names(TaskState::Processing);
    lemma_state_names(TaskState::Completed);
    lemma_state_names(TaskState::Error);
    if state.phase == Phase::Running {
        lemma_step_record(state.steps, state.cursor, state.cursor);
    }
}

/// Whatever the outcome, the task stays well formed.
pub proof fn lemma_after_keeps_well_formed(state: CoordinatorView, outcome: ToolOutcomeView)
    requires
        state.wf(),
    ensures
        state.after(outcome).wf(),
{
    lemma_record_is_well_formed(state);
    lemma_state_names(TaskState::Completed);
    lemma_state_names(TaskState::Error);
    let next = state.after(outcome);
    if next.phase == Phase::Running && state.phase == Phase::Probing {
        let shape = probe_verdict(outcome)->Ok_0;
        let target = format_verdict(shape, state.target_format)->Ok_0;
        lemma_steps_shape(target, shape.height, state.skip_thumbnail);
    }
}

/// One outcome never lowers the progress. Until the task has ended it moves
/// the record forward: from `starting` or `processing` to `processing`,
/// `completed` or `error`, never back. Once the task has ended nothing
/// changes any more.
pub proof fn lemma_progress_never_falls(state: CoordinatorView, outcome: ToolOutcomeView)
    requires
        state.wf(),
    ensures
        state.record.progress <= state.after(outcome).record.progress,
        state.phase != Phase::Finished ==> state.record.may_become(state.after(outcome).record),
        state.phase == Phase::Finished ==> state.after(outcome) == state,
        state.after(outcome).phase != Phase::Probing,
{
    lemma_record_is_well_formed(state);
    lemma_after_keeps_well_formed(state, outcome);
    lemma_record_is_well_formed(state.after(outcome));
    lemma_state_names(TaskState::Starting);
    lemma_state_names(TaskState::Processing);
    lemma_state_names(TaskState::Completed);
    lemma_state_names(TaskState::Error);
    let next = state.after(outcome);
    if state.phase == Phase::Running && next.phase == Phase::Running {
        lemma_step_record(state.steps, state.cursor, state.cursor + 1);
    }
}

/// Over the whole life of a task, however its actions turn out, the
/// progress never falls: after more outcomes it is at least what it was
/// after fewer. Every state on the way is well formed, so the progress is
/// 100 exactly in a task that has completed.
pub proof fn lemma_progress_is_monotonic(
    state: CoordinatorView,
    outcomes: Seq<ToolOutcomeView>,
    earlier: int,
    later: int,
)
    requires
        state.wf(),
        0 <= earlier <= later <= outcomes.len(),
    ensures
        state.after_all(outcomes.take(later)).wf(),
        state.after_all(outcomes.take(earlier)).record.progress <= state.after_all(
            outcomes.take(later),
        ).record.progress,
        state.after_all(outcomes.take(later)).record.progress == 100 <==> state.after_all(
            outcomes.take(later),
        ).record.state() == Some(TaskState::Completed),
    decreases later,
{
    let reached = state.after_all(outcomes.take(later));
    if later == 0 {
        assert(outcomes.take(0).len() == 0);
    } else {
        let shorter = outcomes.take(later).drop_last();
        assert(shorter =~= outcomes.take(later - 1));
        let before = state.after_all(outcomes.take(later - 1));
        assert(reached == before.after(outcomes.take(later).last()));
        if earlier < later {
            lemma_progress_is_monotonic(state, outcomes, earlier, later - 1);
        } else {
            lemma_progress_is_monotonic(state, outcomes, later - 1, later - 1);
        }
        lemma_after_keeps_well_formed(before, outcomes.take(later).last());
        lemma_progress_never_falls(before, outcomes.take(later).last());
    }
    lemma_record_is_well_formed(reached);
}

/// An action that fails ends the task on the spot: the record turns to
/// `error` with the failure's message and the progress it had, and nothing
/// more is asked for. A failed probe therefore ends the task before it was
/// ever `processing`.
pub proof fn lemma_failure_ends_task(state: CoordinatorView, outcome: ToolOutcomeView)
    requires
        state.wf(),
        state.phase != Phase::Finished,
        !outcome.success,
    ensures
        state.after(outcome).phase == Phase::Finished,
        state.after(outcome).pending() == ActionView::Done,
        state.after(outcome).result() == Some(
            Err::<(), Failure>(
                if state.phase == Phase::Probing {
                    Failure::ProbeFailure(outcome.detail)
                } else {
                    step_failure(state.steps[state.cursor as int], outcome)
                },
            ),
        ),
        state.after(outcome).record == error_record(
            state.record.progress,
            state.after(outcome).failure->Some_0.message(),
        ),
        state.after(outcome).record.state() == Some(TaskState::Error),
{
    lemma_state_names(TaskState::Error);
}

/// As long as its steps succeed, a running task takes them in order, and
/// when the last one has succeeded it is completed.
pub proof fn lemma_successes_complete(state: CoordinatorView, outcomes: Seq<ToolOutcomeView>)
    requires
        state.wf(),
        state.phase == Phase::Running,
        outcomes.len() <= state.steps.len() - state.cursor,
        forall|i: int| 0 <= i < outcomes.len() ==> (#[trigger] outcomes[i]).success,
    ensures
        outcomes.len() < state.steps.len() - state.cursor ==> state.after_all(outcomes)
            == state.begin(state.steps, state.cursor + outcomes.len()),
        outcomes.len() == state.steps.len() - state.cursor ==> {
            &&& state.after_all(outcomes).result() == Some(Ok::<(), Failure>(()))
            &&& state.after_all(outcomes).record == completed_record()
            &&& state.after_all(outcomes).pending() == ActionView::Done
        },
    decreases outcomes.len(),
{
    if outcomes.len() > 0 {
        let shorter = outcomes.drop_last();
        assert forall|i: int| 0 <= i < shorter.len() implies (#[trigger] shorter[i]).success by {
            assert(shorter[i] == outcomes[i]);
        }
        lemma_successes_complete(state, shorter);
        assert(outcomes.last() == outcomes[outcomes.len() - 1]);
    }
}

/// Every outcome brings the end of the task nearer, so a task ends after
/// seven outcomes at the latest: the probe's and those of at most six steps.
pub proof fn lemma_task_ends(state: CoordinatorView, outcomes: Seq<ToolOutcomeView>)
    requires
        state.wf(),
    ensures
        state.after_all(outcomes).wf(),
        state.after_all(outcomes).phase == Phase::Finished || state.after_all(
            outcomes,
        ).outstanding() + outcomes.len() <= state.outstanding(),
        outcomes.len() >= state.outstanding() ==> state.after_all(outcomes).phase
            == Phase::Finished,
        outcomes.len() >= 7 ==> state.after_all(outcomes).phase == Phase::Finished,
    decreases outcomes.len(),
{
    if outcomes.len() > 0 {
        let before = state.after_all(outcomes.drop_last());
        lemma_task_ends(state, outcomes.drop_last());
        lemma_after_keeps_well_formed(before, outcomes.last());
        if before.phase == Phase::Probing && before.after(outcomes.last()).phase == Phase::Running {
            let shape = probe_verdict(outcomes.last())->Ok_0;
            let target = format_verdict(shape, before.target_format)->Ok_0;
            lemma_steps_shape(target, shape.height, before.skip_thumbnail);
        }
    }
}

/// A store that shows a task's record before an outcome shows its record
/// after it, too; the records of other tasks stay as they are, and no
/// record disappears.
pub proof fn lemma_store_follows_task(
    store: Map<Seq<char>, TaskStatusView>,
    state: CoordinatorView,
    outcome: ToolOutcomeView,
    other: Seq<char>,
)
    requires
        store.contains_key(state.task_id),
        store[state.task_id] == state.record,
    ensures
        store_after(store, state, outcome).contains_key(state.task_id),
        store_after(store, state, outcome)[state.task_id] == state.after(outcome).record,
        store.contains_key(other) ==> store_after(store, state, outcome).contains_key(other),
        other != state.task_id && store.contains_key(other) ==> store_after(
            store,
            state,
            outcome,
        )[other] == store[other],
        other != state.task_id && !store.contains_key(other) ==> !store_after(
            store,
            state,
            outcome,
        ).contains_key(other),
{
}

/// A task for `Home` encodes one rendition for each height of the plan, in
/// the plan's order, each into the file named after its height. None of
/// them is higher than the source, and each is at least one pixel high.
pub proof fn lemma_home_encodes_the_plan(
    state: CoordinatorView,
    outcome: ToolOutcomeView,
    shape: Dimensions,
    index: int,
)
    requires
        state.phase == Phase::Probing,
        probe_verdict(outcome) == Ok::<Dimensions, Failure>(shape),
        format_verdict(shape, state.target_format) == Ok::<DeliveryTarget, Failure>(
            DeliveryTarget::Home,
        ),
        0 <= index < plan_for(shape.height).len(),
    ensures
        state.after(outcome).phase == Phase::Running,
        state.after(outcome).steps == steps_for(
            DeliveryTarget::Home,
            shape.height,
            state.skip_thumbnail,
        ),
        rendition_steps(DeliveryTarget::Home, shape.height).len() == plan_for(shape.height).len(),
        state.after(outcome).steps[index] == Step::Encode(plan_for(shape.height)[index]),
        0 < plan_for(shape.height)[index] <= shape.height,
        step_action(state.video_path, state.after(outcome).steps[index]) == (ActionView::Encode {
            input: state.video_path,
            output: rendition_name(state.video_path, plan_for(shape.height)[index]),
            height: plan_for(shape.height)[index],
        }),
{
    lemma_plan_never_upscales(shape.height);
}

/// A task for `Flash` produces exactly one video file, by copying the
/// source to the file labelled `720p`, whatever the height of the source.
/// The only other step, unless it is skipped, is the thumbnail.
pub proof fn lemma_flash_produces_one_file(
    state: CoordinatorView,
    outcome: ToolOutcomeView,
    shape: Dimensions,
)
    requires
        state.phase == Phase::Probing,
        probe_verdict(outcome) == Ok::<Dimensions, Failure>(shape),
        format_verdict(shape, state.target_format) == Ok::<DeliveryTarget, Failure>(
            DeliveryTarget::Flash,
        ),
    ensures
        state.after(outcome).phase == Phase::Running,
        state.after(outcome).steps == steps_for(
            DeliveryTarget::Flash,
            shape.height,
            state.skip_thumbnail,
        ),
        rendition_steps(DeliveryTarget::Flash, shape.height).len() == 1,
        state.after(outcome).pending() == (ActionView::Copy {
            from: state.video_path,
            to: flash_copy_name(state.video_path),
        }),
        state.after(outcome).pending().output() == Some(flash_copy_name(state.video_path)),
        forall|i: int|
            1 <= i < state.after(outcome).steps.len() ==> #[trigger] state.after(outcome).steps[i]
                == Step::Thumbnail,
{
}

/// Writes what is shown while `step` is carried out.
fn step_message_text(step: Step) -> (message: String)
    ensures
        message@ == step_message(step),
{
    match step {
        Step::Encode(height) => {
            let number = decimal_string(height);
            join("Transcoding to ", number.as_str()).concat("p...")
        },
        Step::Copy => String::from_str("Optimizing flash video (copy)..."),
        Step::Thumbnail => String::from_str("Generating thumbnail..."),
    }
}

/// Names the failure that an unsuccessful outcome of `step` amounts to.
fn failure_of_step(step: Step, outcome: &ToolOutcome) -> (error: ProcessError)
    ensures
        error@ == step_failure(step, outcome@),
{
    match step {
        Step::Encode(height) => ProcessError::EncodeFailure(height),
        Step::Copy => ProcessError::CopyFailure(outcome.detail.clone()),
        Step::Thumbnail => ProcessError::ThumbnailFailure,
    }
}

/// The coordinator of one task: what the task was asked to do, how far it
/// has come, and the record it shows.
pub struct Coordinator {
    task_id: String,
    video_path: String,
    target_format: String,
    skip_thumbnail: bool,
    phase: Phase,
    steps: Vec<Step>,
    cursor: usize,
    record: TaskStatus,
    failure: Option<ProcessError>,
}

impl View for Coordinator {
    type V = CoordinatorView;

    closed spec fn view(&self) -> CoordinatorView {
        CoordinatorView {
            task_id: self.task_id@,
            video_path: self.video_path@,
            target_format: self.target_format@,
            skip_thumbnail: self.skip_thumbnail,
            phase: self.phase,
            steps: self.steps@,
            cursor: self.cursor as nat,
            record: self.record@,
            failure: match self.failure {
                Some(error) => Some(error@),
                None => None,
            },
        }
    }
}

impl Coordinator {
    /// Every coordinator is well formed, whichever way it came about.
    #[verifier::type_invariant]
    spec fn well_formed(self) -> bool {
        self@.wf()
    }

    /// Takes a task on: writes its starting record to the store and waits
    /// for the probe of the source. The record is in the store before any
    /// work is asked for, so a poll right after submission finds it.
    pub fn submit(request: &ProcessRequest, store: &mut StatusStore) -> (coordinator: Coordinator)
        ensures
            coordinator@ == submitted(request@),
            coordinator@.wf(),
            final(store)@ == old(store)@.insert(request.task_id@, starting_record()),
    {
        let record = TaskStatus::starting();
        store.set(request.task_id.clone(), record.duplicate());
        Coordinator {
            task_id: request.task_id.clone(),
            video_path: request.video_id.clone(),
            target_format: request.target_format.clone(),
            skip_thumbnail: request.skip_thumbnail,
            phase: Phase::Probing,
            steps: Vec::new(),
            cursor: 0,
            record,
            failure: None,
        }
    }

    /// The action that the task is waiting for: the probe at first, then
    /// one step after another, and `Done` once the task has ended.
    pub fn pending(&self) -> (action: Action)
        ensures
            action@ == self@.pending(),
    {
        proof {
            use_type_invariant(self);
        }
        match self.phase {
            Phase::Probing => Action::Probe { path: self.video_path.clone() },
            Phase::Running => action_for(self.video_path.as_str(), self.steps[self.cursor]),
            Phase::Finished => Action::Done,
        }
    }

    /// The record that the task shows.
    pub fn record(&self) -> (record: TaskStatus)
        ensures
            record@ == self@.record,
            record.wf(),
    {
        proof {
            use_type_invariant(self);
            lemma_record_is_well_formed(self@);
        }
        self.record.duplicate()
    }

    /// The name under which the task's record is kept.
    pub fn task_id(&self) -> (id: &str)
        ensures
            id@ == self@.task_id,
    {
        self.task_id.as_str()
    }

    /// How the task has ended: `None` while it has not, then `Ok` if every
    /// step succeeded and otherwise the failure that ended it.
    pub fn result(&self) -> (result: Option<Result<(), ProcessError>>)
        ensures
            match result {
                None => self@.result() is None,
                Some(Ok(_)) => self@.result() == Some(Ok::<(), Failure>(())),
                Some(Err(error)) => self@.result() == Some(Err::<(), Failure>(error@)),
            },
    {
        match self.phase {
            Phase::Finished => match &self.failure {
                None => Some(Ok(())),
                Some(error) => Some(Err(error.duplicate())),
            },
            _ => None,
        }
    }

    /// Whether the task has ended.
    pub fn is_finished(&self) -> (finished: bool)
        ensures
            finished == (self@.phase == Phase::Finished),
    {
        match self.phase {
            Phase::Finished => true,
            _ => false,
        }
    }

    /// Writes the record shown while step number `cursor` is carried out.
    fn record_of_step(steps: &Vec<Step>, cursor: usize) -> (record: TaskStatus)
        requires
            cursor < steps@.len(),
        ensures
            record@ == step_record(steps@, cursor as nat),
    {
        TaskStatus::processing(
            step_progress(cursor, steps.len()),
            step_message_text(steps[cursor]),
        )
    }

    /// Takes in how the pending action went, writes the task's new record
    /// to the store and says what to do next.
    ///
    /// The task moves as [`CoordinatorView::after`] says. Unless it had
    /// ended before, its new record is written under its id; no other
    /// task's record is touched. The action handed back is the one the task
    /// now waits for.
    pub fn advance(self, store: &mut StatusStore, outcome: &ToolOutcome) -> (next: (
        Coordinator,
        Action,
    ))
        ensures
            next.0@ == self@.after(outcome@),
            next.0@.wf(),
            next.1@ == next.0@.pending(),
            final(store)@ == store_after(old(store)@, self@, outcome@),
    {
        proof {
            use_type_invariant(&self);
            lemma_after_keeps_well_formed(self@, outcome@);
            lemma_record_is_well_formed(self@);
        }
        let Coordinator {
            task_id,
            video_path,
            target_format,
            skip_thumbnail,
            phase,
            steps,
            cursor,
            record,
            failure,
        } = self;
        let (phase, steps, cursor, record, failure) = match phase {
            Phase::Finished => {
                let ended = Coordinator {
                    task_id,
                    video_path,
                    target_format,
                    skip_thumbnail,
                    phase,
                    steps,
                    cursor,
                    record,
                    failure,
                };
                return (ended, Action::Done);
            },
            Phase::Probing => {
                let planned = match read_probe(outcome) {
                    Err(error) => Err(error),
                    Ok(shape) => match validate_format(shape, target_format.as_str()) {
                        Err(error) => Err(error),
                        Ok(target) => {
                            proof {
                                lemma_steps_shape(target, shape.height, skip_thumbnail);
                            }
                            Ok(plan_steps(target, shape.height, skip_thumbnail))
                        },
                    },
                };
                match planned {
                    Err(error) => (
                        Phase::Finished,
                        steps,
                        cursor,
                        TaskStatus::failed(record.progress, error.message()),
                        Some(error),
                    ),
                    Ok(planned) => {
                        let first = Coordinator::record_of_step(&planned, 0);
                        (Phase::Running, planned, 0, first, None)
                    },
                }
            },
            Phase::Running => {
                let total = steps.len();
                if !outcome.success {
                    let error = failure_of_step(steps[cursor], outcome);
                    (
                        Phase::Finished,
                        steps,
                        cursor,
                        TaskStatus::failed(record.progress, error.message()),
                        Some(error),
                    )
                } else if cursor + 1 < total {
                    let following = Coordinator::record_of_step(&steps, cursor + 1);
                    (Phase::Running, steps, cursor + 1, following, None)
                } else {
                    (Phase::Finished, steps, cursor, TaskStatus::completed(), None)
                }
            },
        };
        let coordinator = Coordinator {
            task_id,
            video_path,
            target_format,
            skip_thumbnail,
            phase,
            steps,
            cursor,
            record,
            failure,
        };
        store.set(coordinator.task_id.clone(), coordinator.record.duplicate());
        let action = coordinator.pending();
        (coordinator, action)
    }
}

} // verus!
