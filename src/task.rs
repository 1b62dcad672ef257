use vstd::prelude::*;

use crate::ident::IdSource;

verus! {

/// The lifecycle states of a task.
#[derive(Clone, Copy, Debug, PartialEq, Eq, Structural)]
pub enum TaskState {
    Queued,
    InProgress,
    Completed,
    Failed,
}

/// The fixed set of legal edges of the lifecycle.
pub open spec fn legal_edge(from: TaskState, to: TaskState) -> bool {
    ||| (from == TaskState::Queued && to == TaskState::InProgress)
    ||| (from == TaskState::InProgress && to == TaskState::Completed)
    ||| (from == TaskState::InProgress && to == TaskState::Failed)
}

/// The lifecycle allows exactly `Queued -> InProgress`, `InProgress -> Completed`
/// and `InProgress -> Failed`: no self-transition, nothing out of a terminal state,
/// and nothing that skips `InProgress`.
pub proof fn lemma_legal_edges(from: TaskState, to: TaskState)
    ensures
        legal_edge(from, to) <==> (
            (from == TaskState::Queued && to == TaskState::InProgress)
            || (from == TaskState::InProgress && to == TaskState::Completed)
            || (from == TaskState::InProgress && to == TaskState::Failed)),
        from == to ==> !legal_edge(from, to),
        from == TaskState::Completed ==> !legal_edge(from, to),
        from == TaskState::Failed ==> !legal_edge(from, to),
        from == TaskState::Queued && to != TaskState::InProgress ==> !legal_edge(from, to),
{
}

impl TaskState {
    /// Whether a task in this state may move to `target`.
    pub fn can_transition_to(&self, target: &TaskState) -> (r: bool)
        ensures
            r == legal_edge(*self, *target),
    {
        match (*self, *target) {
            (TaskState::Queued, TaskState::InProgress) => true,
            (TaskState::InProgress, TaskState::Completed) => true,
            (TaskState::InProgress, TaskState::Failed) => true,
            _ => false,
        }
    }
}

/// A task's fields as mathematical values.
pub struct TaskView {
    pub global_id: Seq<char>,
    pub user_id: Seq<char>,
    pub task_type: Seq<char>,
    pub source_file: Seq<char>,
    pub result_file: Option<Seq<char>>,
    pub state: TaskState,
}

/// The view of an optional string.
pub open spec fn opt_view(o: Option<String>) -> Option<Seq<char>> {
    match o {
        Some(s) => Some(s@),
        None => None,
    }
}

/// A task as first stored: queued, with no result.
pub open spec fn queued_task(
    global_id: Seq<char>,
    user_id: Seq<char>,
    task_type: Seq<char>,
    source_file: Seq<char>,
) -> TaskView {
    TaskView {
        global_id,
        user_id,
        task_type,
        source_file,
        result_file: None,
        state: TaskState::Queued,
    }
}

/// A task record: a unit of work tracked through its lifecycle.
pub struct Task {
    pub global_id: String,
    pub user_id: String,
    pub task_type: String,
    pub source_file: String,
    pub result_file: Option<String>,
    pub state: TaskState,
}

impl View for Task {
    type V = TaskView;

    open spec fn view(&self) -> TaskView {
        TaskView {
            global_id: self.global_id@,
            user_id: self.user_id@,
            task_type: self.task_type@,
            source_file: self.source_file@,
            result_file: opt_view(self.result_file),
            state: self.state,
        }
    }
}

fn copy_opt(o: &Option<String>) -> (r: Option<String>)
    ensures
        opt_view(r) == opt_view(*o),
{
    match o {
        Some(s) => Some(s.clone()),
        None => None,
    }
}

impl TaskView {
    /// A result is attached only to a completed task.
    pub open spec fn wf(self) -> bool {
        self.result_file is Some ==> self.state == TaskState::Completed
    }
}

impl Task {
    /// Creates a queued task with a freshly issued identifier and no result.
    pub fn new(ids: &mut IdSource, user_id: String, task_type: String, source_file: String) -> (r: Task)
        requires
            old(ids).can_issue(),
        ensures
            r@ == queued_task(
                crate::ident::id_text(old(ids).issued_count() as u64),
                user_id@,
                task_type@,
                source_file@,
            ),
            r@.wf(),
            r.global_id@.len() > 0,
            !old(ids).has_issued(r.global_id@),
            final(ids).issued_count() == old(ids).issued_count() + 1,
            forall|id: Seq<char>| #[trigger]
                final(ids).has_issued(id) <==> (old(ids).has_issued(id) || id == r.global_id@),
    {
        let global_id = ids.issue();
        Task { global_id, user_id, task_type, source_file, result_file: None, state: TaskState::Queued }
    }

    /// The task's identifier.
    pub fn get_global_id(&self) -> (r: String)
        ensures
            r@ == self.global_id@,
    {
        self.global_id.clone()
    }

    /// Whether the lifecycle lets the task enter `target` now.
    pub fn can_transition_to(&self, target: &TaskState) -> (r: bool)
        ensures
            r == legal_edge(self.state, *target),
    {
        self.state.can_transition_to(target)
    }

    /// A new task with the same field values.
    pub fn duplicate(&self) -> (r: Task)
        ensures
            r@ == self@,
    {
        Task {
            global_id: self.global_id.clone(),
            user_id: self.user_id.clone(),
            task_type: self.task_type.clone(),
            source_file: self.source_file.clone(),
            result_file: copy_opt(&self.result_file),
            state: self.state,
        }
    }
}

} // verus!
