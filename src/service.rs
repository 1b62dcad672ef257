use vstd::prelude::*;

use crate::error::TaskError;
use crate::ident::{id_text, IdSource};
use crate::repository::{keyed_by_id, stored, StoreFull, TaskRepository};
use crate::task::{legal_edge, opt_view, queued_task, Task, TaskState, TaskView};

verus! {

/// The identifier of a task, as handed to and from clients.
pub struct TaskId {
    pub task_global_id: String,
}

/// A client's request for a new task.
pub struct SubmitTaskRequest {
    pub user_id: String,
    pub task_type: String,
    pub source_file: String,
}

/// What a fetch of `id` answers.
pub open spec fn fetch_outcome(m: Map<Seq<char>, TaskView>, id: Seq<char>) -> Result<TaskView, TaskError> {
    match stored(m, id) {
        Some(t) => Ok(t),
        None => Err(TaskError::TaskNotFound),
    }
}

/// `t` moved to `new_state`, with `result_file` as its result.
pub open spec fn moved(t: TaskView, new_state: TaskState, result_file: Option<Seq<char>>) -> TaskView {
    TaskView { state: new_state, result_file, ..t }
}

/// The record a transition of the fetched record would write, or why it is refused.
pub open spec fn planned(
    fetched: Option<TaskView>,
    new_state: TaskState,
    result_file: Option<Seq<char>>,
) -> Result<TaskView, TaskError> {
    match fetched {
        None => Err(TaskError::TaskNotFound),
        Some(t) => if legal_edge(t.state, new_state) {
            Ok(moved(t, new_state, result_file))
        } else {
            Err(TaskError::BadTaskRequest)
        },
    }
}

/// The record a transition of task `id` in `m` writes, or why it is refused.
pub open spec fn transition_outcome(
    m: Map<Seq<char>, TaskView>,
    id: Seq<char>,
    new_state: TaskState,
    result_file: Option<Seq<char>>,
) -> Result<TaskView, TaskError> {
    planned(stored(m, id), new_state, result_file)
}

/// The store after a transition of task `id`: unchanged where it is refused.
pub open spec fn after_transition(
    m: Map<Seq<char>, TaskView>,
    id: Seq<char>,
    new_state: TaskState,
    result_file: Option<Seq<char>>,
) -> Map<Seq<char>, TaskView> {
    match transition_outcome(m, id, new_state, result_file) {
        Ok(t) => m.insert(id, t),
        Err(_) => m,
    }
}

/// The store after task `id` was submitted from `request`.
pub open spec fn after_submit(
    m: Map<Seq<char>, TaskView>,
    id: Seq<char>,
    request: SubmitTaskRequest,
) -> Map<Seq<char>, TaskView> {
    m.insert(id, queued_task(id, request.user_id@, request.task_type@, request.source_file@))
}

/// The view of a fetch result.
pub open spec fn fetched_view(r: Result<Task, TaskError>) -> Result<TaskView, TaskError> {
    match r {
        Ok(t) => Ok(t@),
        Err(e) => Err(e),
    }
}

/// Decides a transition on a record fetched from any store: the record to write
/// back, `TaskNotFound` where none was fetched, `BadTaskRequest` where the edge is illegal.
pub fn plan_transition(fetched: Option<Task>, new_state: TaskState, result_file: Option<String>) -> (r: Result<
    Task,
    TaskError,
>)
    requires
        result_file is Some <==> new_state == TaskState::Completed,
    ensures
        fetched_view(r) == planned(
            match fetched {
                Some(t) => Some(t@),
                None => None,
            },
            new_state,
            opt_view(result_file),
        ),
{
    let mut task = match fetched {
        Some(task) => task,
        None => return Err(TaskError::TaskNotFound),
    };
    if !task.can_transition_to(&new_state) {
        return Err(TaskError::BadTaskRequest);
    }
    task.state = new_state;
    task.result_file = result_file;
    Ok(task)
}

/// Moves task `task_global_id` to `new_state` with `result_file` as its result,
/// where the lifecycle allows it, and writes the whole record back.
pub fn state_transition(
    repo: &mut TaskRepository,
    task_global_id: &String,
    new_state: TaskState,
    result_file: Option<String>,
) -> (r: Result<TaskId, TaskError>)
    requires
        old(repo).wf(),
        result_file is Some <==> new_state == TaskState::Completed,
    ensures
        final(repo).wf(),
        keyed_by_id(final(repo)@),
        final(repo).max_records() == old(repo).max_records(),
        final(repo)@ == after_transition(old(repo)@, task_global_id@, new_state, opt_view(result_file)),
        match transition_outcome(old(repo)@, task_global_id@, new_state, opt_view(result_file)) {
            Ok(_) => r is Ok && r->Ok_0.task_global_id@ == task_global_id@,
            Err(e) => r == Err::<TaskId, TaskError>(e),
        },
{
    let fetched = repo.get_task(task_global_id);
    let task = match plan_transition(fetched, new_state, result_file) {
        Ok(task) => task,
        Err(e) => return Err(e),
    };
    let task_id = task.get_global_id();
    match repo.put_task(task) {
        Ok(()) => Ok(TaskId { task_global_id: task_id }),
        Err(StoreFull) => Err(TaskError::TaskUpdateFailure),
    }
}

/// Fetches the task named by `task_id`.
pub fn get_task(repo: &TaskRepository, task_id: &TaskId) -> (r: Result<Task, TaskError>)
    requires
        repo.wf(),
    ensures
        fetched_view(r) == fetch_outcome(repo@, task_id.task_global_id@),
{
    match repo.get_task(&task_id.task_global_id) {
        Some(task) => Ok(task),
        None => Err(TaskError::TaskNotFound),
    }
}

/// Starts a queued task.
pub fn start_task(repo: &mut TaskRepository, task_id: &TaskId) -> (r: Result<TaskId, TaskError>)
    requires
        old(repo).wf(),
    ensures
        final(repo).wf(),
        keyed_by_id(final(repo)@),
        final(repo).max_records() == old(repo).max_records(),
        final(repo)@ == after_transition(old(repo)@, task_id.task_global_id@, TaskState::InProgress, None),
        match transition_outcome(old(repo)@, task_id.task_global_id@, TaskState::InProgress, None) {
            Ok(_) => r is Ok && r->Ok_0.task_global_id@ == task_id.task_global_id@,
            Err(e) => r == Err::<TaskId, TaskError>(e),
        },
{
    state_transition(repo, &task_id.task_global_id, TaskState::InProgress, None)
}

/// Completes a task in progress, attaching `result_file` as its result.
pub fn complete_task(repo: &mut TaskRepository, task_id: &TaskId, result_file: String) -> (r: Result<TaskId, TaskError>)
    requires
        old(repo).wf(),
    ensures
        final(repo).wf(),
        keyed_by_id(final(repo)@),
        final(repo).max_records() == old(repo).max_records(),
        final(repo)@ == after_transition(
            old(repo)@,
            task_id.task_global_id@,
            TaskState::Completed,
            Some(result_file@),
        ),
        match transition_outcome(old(repo)@, task_id.task_global_id@, TaskState::Completed, Some(result_file@)) {
            Ok(_) => r is Ok && r->Ok_0.task_global_id@ == task_id.task_global_id@,
            Err(e) => r == Err::<TaskId, TaskError>(e),
        },
{
    state_transition(repo, &task_id.task_global_id, TaskState::Completed, Some(result_file))
}

/// Marks a task in progress as failed.
pub fn fail_task(repo: &mut TaskRepository, task_id: &TaskId) -> (r: Result<TaskId, TaskError>)
    requires
        old(repo).wf(),
    ensures
        final(repo).wf(),
        keyed_by_id(final(repo)@),
        final(repo).max_records() == old(repo).max_records(),
        final(repo)@ == after_transition(old(repo)@, task_id.task_global_id@, TaskState::Failed, None),
        match transition_outcome(old(repo)@, task_id.task_global_id@, TaskState::Failed, None) {
            Ok(_) => r is Ok && r->Ok_0.task_global_id@ == task_id.task_global_id@,
            Err(e) => r == Err::<TaskId, TaskError>(e),
        },
{
    state_transition(repo, &task_id.task_global_id, TaskState::Failed, None)
}

/// Creates a queued task from `request` under a fresh identifier and stores it.
/// `TaskCreationFailure` where no identifier is left, a record already stands under
/// the new identifier, or the store refuses the write.
pub fn submit_task(repo: &mut TaskRepository, ids: &mut IdSource, request: &SubmitTaskRequest) -> (r: Result<
    TaskId,
    TaskError,
>)
    requires
        old(repo).wf(),
    ensures
        final(repo).wf(),
        keyed_by_id(final(repo)@),
        final(repo).max_records() == old(repo).max_records(),
        !old(ids).can_issue() ==> r == Err::<TaskId, TaskError>(TaskError::TaskCreationFailure)
            && final(repo)@ == old(repo)@ && *final(ids) == *old(ids),
        old(ids).can_issue() ==> {
            let id = id_text(old(ids).issued_count() as u64);
            &&& !old(ids).has_issued(id)
            &&& final(ids).issued_count() == old(ids).issued_count() + 1
            &&& forall|k: Seq<char>| #[trigger]
                final(ids).has_issued(k) <==> (old(ids).has_issued(k) || k == id)
            &&& !old(repo)@.contains_key(id) && old(repo).accepts(id) ==> r is Ok
                && r->Ok_0.task_global_id@ == id && final(repo)@ == after_submit(old(repo)@, id, *request)
            &&& old(repo)@.contains_key(id) || !old(repo).accepts(id) ==> r == Err::<TaskId, TaskError>(
                TaskError::TaskCreationFailure,
            ) && final(repo)@ == old(repo)@
        },
        r is Ok ==> !old(repo)@.contains_key(r->Ok_0.task_global_id@),
{
    proof {
        repo.lemma_keyed_by_id();
    }
    if !ids.has_capacity() {
        return Err(TaskError::TaskCreationFailure);
    }
    let task = Task::new(
        ids,
        request.user_id.clone(),
        request.task_type.clone(),
        request.source_file.clone(),
    );
    let task_id = task.get_global_id();
    if repo.get_task(&task_id).is_some() {
        return Err(TaskError::TaskCreationFailure);
    }
    match repo.put_task(task) {
        Ok(()) => Ok(TaskId { task_global_id: task_id }),
        Err(StoreFull) => Err(TaskError::TaskCreationFailure),
    }
}

/// Fetching an identifier under which nothing was ever stored answers `TaskNotFound`.
pub proof fn lemma_fetch_unknown(m: Map<Seq<char>, TaskView>, id: Seq<char>)
    requires
        !m.contains_key(id),
    ensures
        fetch_outcome(m, id) == Err::<TaskView, TaskError>(TaskError::TaskNotFound),
{
}

/// A task fetched right after it was submitted is queued and has no result.
pub proof fn lemma_submit_then_fetch(m: Map<Seq<char>, TaskView>, id: Seq<char>, request: SubmitTaskRequest)
    ensures
        fetch_outcome(after_submit(m, id, request), id) == Ok::<TaskView, TaskError>(
            queued_task(id, request.user_id@, request.task_type@, request.source_file@),
        ),
        fetch_outcome(after_submit(m, id, request), id)->Ok_0.state == TaskState::Queued,
        fetch_outcome(after_submit(m, id, request), id)->Ok_0.result_file is None,
{
}

/// A queued task fetched after it was started is in progress.
pub proof fn lemma_start_then_fetch(m: Map<Seq<char>, TaskView>, id: Seq<char>)
    requires
        m.contains_key(id),
        m[id].state == TaskState::Queued,
    ensures
        transition_outcome(m, id, TaskState::InProgress, None) is Ok,
        fetch_outcome(after_transition(m, id, TaskState::InProgress, None), id) is Ok,
        fetch_outcome(after_transition(m, id, TaskState::InProgress, None), id)->Ok_0.state
            == TaskState::InProgress,
{
}

/// Starting a task that is in progress or terminal is refused with `BadTaskRequest`
/// and leaves the store unchanged.
pub proof fn lemma_start_refused(m: Map<Seq<char>, TaskView>, id: Seq<char>)
    requires
        m.contains_key(id),
        m[id].state != TaskState::Queued,
    ensures
        transition_outcome(m, id, TaskState::InProgress, None) == Err::<TaskView, TaskError>(
            TaskError::BadTaskRequest,
        ),
        after_transition(m, id, TaskState::InProgress, None) == m,
{
}

/// Completing a task in progress stores it completed with the given result,
/// after which no transition out of it is legal.
pub proof fn lemma_complete_then_fetch(m: Map<Seq<char>, TaskView>, id: Seq<char>, result_file: Seq<char>)
    requires
        m.contains_key(id),
        m[id].state == TaskState::InProgress,
    ensures
        fetch_outcome(after_transition(m, id, TaskState::Completed, Some(result_file)), id) is Ok,
        fetch_outcome(after_transition(m, id, TaskState::Completed, Some(result_file)), id)->Ok_0.state
            == TaskState::Completed,
        fetch_outcome(after_transition(m, id, TaskState::Completed, Some(result_file)), id)->Ok_0.result_file
            == Some(result_file),
        forall|target: TaskState|
            !legal_edge(
                fetch_outcome(after_transition(m, id, TaskState::Completed, Some(result_file)), id)->Ok_0.state,
                target,
            ),
{
}

/// Transitions keep every stored record well formed (a result only on a completed
/// task), as long as a result is attached only when completing.
pub proof fn lemma_transition_keeps_records_wf(
    m: Map<Seq<char>, TaskView>,
    id: Seq<char>,
    new_state: TaskState,
    result_file: Option<Seq<char>>,
)
    requires
        forall|k: Seq<char>| #[trigger] m.contains_key(k) ==> m[k].wf(),
        result_file is Some ==> new_state == TaskState::Completed,
    ensures
        forall|k: Seq<char>| #[trigger] after_transition(m, id, new_state, result_file).contains_key(k)
            ==> after_transition(m, id, new_state, result_file)[k].wf(),
{
}

} // verus!
