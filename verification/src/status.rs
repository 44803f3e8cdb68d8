//! The record that pollers see for one task.

use crate::text::str_equal;
use vstd::prelude::*;
use vstd::string::*;

verus! {

/// Where a task stands. A task starts in `Starting`, moves to `Processing`
/// once its first step is under way, and ends in `Completed` or `Error`;
/// it never moves backwards.
#[derive(Clone, Copy, Debug, PartialEq, Eq, Structural)]
pub enum TaskState {
    Starting,
    Processing,
    Completed,
    Error,
}

impl TaskState {
    /// The word under which the state appears in a record.
    pub open spec fn name(self) -> Seq<char> {
        match self {
            TaskState::Starting => "starting"@,
            TaskState::Processing => "processing"@,
            TaskState::Completed => "completed"@,
            TaskState::Error => "error"@,
        }
    }

    /// A task in a terminal state never changes again.
    pub open spec fn is_terminal(self) -> bool {
        self == TaskState::Completed || self == TaskState::Error
    }

    /// Whether a task in state `self` may be in state `next` after its next
    /// write. Terminal states have no successor, `Starting` is never
    /// re-entered, and `Completed` is reached only from `Processing`.
    pub open spec fn may_become(self, next: TaskState) -> bool {
        match (self, next) {
            (TaskState::Starting, TaskState::Processing) => true,
            (TaskState::Starting, TaskState::Error) => true,
            (TaskState::Processing, TaskState::Processing) => true,
            (TaskState::Processing, TaskState::Completed) => true,
            (TaskState::Processing, TaskState::Error) => true,
            _ => false,
        }
    }

    /// The word under which the state appears in a record.
    pub fn label(&self) -> (word: &'static str)
        ensures
            word@ == self.name(),
    {
        match self {
            TaskState::Starting => "starting",
            TaskState::Processing => "processing",
            TaskState::Completed => "completed",
            TaskState::Error => "error",
        }
    }

    /// Reads a state back from its word; `None` for any other text.
    pub fn from_label(word: &str) -> (state: Option<TaskState>)
        ensures
            state == state_named(word@),
    {
        if str_equal(word, "starting") {
            Some(TaskState::Starting)
        } else if str_equal(word, "processing") {
            Some(TaskState::Processing)
        } else if str_equal(word, "completed") {
            Some(TaskState::Completed)
        } else if str_equal(word, "error") {
            Some(TaskState::Error)
        } else {
            None
        }
    }
}

/// The state whose name is `word`, if there is one.
pub open spec fn state_named(word: Seq<char>) -> Option<TaskState> {
    if word == TaskState::Starting.name() {
        Some(TaskState::Starting)
    } else if word == TaskState::Processing.name() {
        Some(TaskState::Processing)
    } else if word == TaskState::Completed.name() {
        Some(TaskState::Completed)
    } else if word == TaskState::Error.name() {
        Some(TaskState::Error)
    } else {
        None
    }
}

/// Different states have different names, so a record's status word
/// determines its state.
pub proof fn lemma_state_names(state: TaskState)
    ensures
        state_named(state.name()) == Some(state),
{
    reveal_strlit("starting");
    reveal_strlit("processing");
    reveal_strlit("completed");
    reveal_strlit("error");
    assert("starting"@.len() == 8);
    assert("processing"@.len() == 10);
    assert("completed"@.len() == 9);
    assert("error"@.len() == 5);
}

/// What a `TaskStatus` holds, as mathematical values.
pub struct TaskStatusView {
    pub progress: nat,
    pub status: Seq<char>,
    pub message: Seq<char>,
}

impl TaskStatusView {
    /// The state that the status word names.
    pub open spec fn state(self) -> Option<TaskState> {
        state_named(self.status)
    }

    /// A record is well formed when its status word names a state, its
    /// progress is a percentage, a fresh task shows no progress, and the
    /// progress is 100 exactly when the task has completed.
    pub open spec fn wf(self) -> bool {
        &&& self.state() is Some
        &&& self.progress <= 100
        &&& (self.state() == Some(TaskState::Starting) ==> self.progress == 0)
        &&& (self.progress == 100 <==> self.state() == Some(TaskState::Completed))
    }

    /// Whether the record belongs to a task that will not change any more.
    pub open spec fn is_terminal(self) -> bool {
        self.state() matches Some(s) && s.is_terminal()
    }

    /// Whether `next` may be written over `self` in the life of one task:
    /// the state moves forward and the progress does not fall.
    pub open spec fn may_become(self, next: TaskStatusView) -> bool {
        &&& self.state() matches Some(a)
        &&& next.state() matches Some(b)
        &&& a.may_become(b)
        &&& self.progress <= next.progress
    }
}

/// The record written when a task is submitted.
pub open spec fn starting_record() -> TaskStatusView {
    TaskStatusView {
        progress: 0,
        status: TaskState::Starting.name(),
        message: "Starting processing..."@,
    }
}

/// The record written before a step is carried out.
pub open spec fn processing_record(progress: nat, message: Seq<char>) -> TaskStatusView {
    TaskStatusView { progress, status: TaskState::Processing.name(), message }
}

/// The record written when every step has succeeded.
pub open spec fn completed_record() -> TaskStatusView {
    TaskStatusView {
        progress: 100,
        status: TaskState::Completed.name(),
        message: "Processing completed"@,
    }
}

/// The record written when a task has failed: the progress stays where it
/// was and the message says what went wrong.
pub open spec fn error_record(progress: nat, message: Seq<char>) -> TaskStatusView {
    TaskStatusView { progress, status: TaskState::Error.name(), message }
}

/// Progress, status word and message of one task, as handed to pollers.
#[derive(Clone, Debug, PartialEq, Eq)]
pub struct TaskStatus {
    pub progress: u32,
    pub status: String,
    pub message: String,
}

impl View for TaskStatus {
    type V = TaskStatusView;

    open spec fn view(&self) -> TaskStatusView {
        TaskStatusView {
            progress: self.progress as nat,
            status: self.status@,
            message: self.message@,
        }
    }
}

impl TaskStatus {
    /// See [`TaskStatusView::wf`].
    pub open spec fn wf(&self) -> bool {
        self@.wf()
    }

    /// The record of a task that has just been submitted.
    pub fn starting() -> (record: TaskStatus)
        ensures
            record@ == starting_record(),
            record.wf(),
    {
        proof {
            lemma_state_names(TaskState::Starting);
        }
        TaskStatus {
            progress: 0,
            status: String::from_str(TaskState::Starting.label()),
            message: String::from_str("Starting processing..."),
        }
    }

    /// The record of a task that is about to carry out a step.
    pub fn processing(progress: u32, message: String) -> (record: TaskStatus)
        requires
            progress < 100,
        ensures
            record@ == processing_record(progress as nat, message@),
            record.wf(),
    {
        proof {
            lemma_state_names(TaskState::Processing);
        }
        TaskStatus { progress, status: String::from_str(TaskState::Processing.label()), message }
    }

    /// The record of a task whose steps have all succeeded.
    pub fn completed() -> (record: TaskStatus)
        ensures
            record@ == completed_record(),
            record.wf(),
    {
        proof {
            lemma_state_names(TaskState::Completed);
        }
        TaskStatus {
            progress: 100,
            status: String::from_str(TaskState::Completed.label()),
            message: String::from_str("Processing completed"),
        }
    }

    /// The record of a task that has failed at the given progress.
    pub fn failed(progress: u32, message: String) -> (record: TaskStatus)
        requires
            progress < 100,
        ensures
            record@ == error_record(progress as nat, message@),
            record.wf(),
    {
        proof {
            lemma_state_names(TaskState::Error);
        }
        TaskStatus { progress, status: String::from_str(TaskState::Error.label()), message }
    }

    /// The state that the status word names, or `None` if it names none.
    pub fn state(&self) -> (state: Option<TaskState>)
        ensures
            state == self@.state(),
    {
        TaskState::from_label(self.status.as_str())
    }

    /// Whether the task has reached `completed` or `error`.
    pub fn is_terminal(&self) -> (terminal: bool)
        ensures
            terminal == self@.is_terminal(),
    {
        match self.state() {
            Some(TaskState::Completed) => true,
            Some(TaskState::Error) => true,
            _ => false,
        }
    }

    /// A copy of the record with the same contents.
    pub fn duplicate(&self) -> (copy: TaskStatus)
        ensures
            copy@ == self@,
    {
        TaskStatus {
            progress: self.progress,
            status: self.status.clone(),
            message: self.message.clone(),
        }
    }
}

} // verus!
