use task_service::error::TaskError;
use task_service::ident::{format_id, IdSource};
use task_service::repository::{StoreFull, TaskRepository};
use task_service::service::{
    complete_task, fail_task, get_task, plan_transition, start_task, submit_task, SubmitTaskRequest,
    TaskId,
};
use task_service::task::{Task, TaskState};

const ALL_STATES: [TaskState; 4] = [
    TaskState::Queued,
    TaskState::InProgress,
    TaskState::Completed,
    TaskState::Failed,
];

fn request(user_id: &str, task_type: &str, source_file: &str) -> SubmitTaskRequest {
    SubmitTaskRequest {
        user_id: user_id.to_string(),
        task_type: task_type.to_string(),
        source_file: source_file.to_string(),
    }
}

fn id_of(text: &str) -> TaskId {
    TaskId { task_global_id: text.to_string() }
}

#[test]
fn submit_get_start_start_again() {
    let mut repo = TaskRepository::new(16);
    let mut ids = IdSource::new();
    let submitted = submit_task(&mut repo, &mut ids, &request("u1", "resize", "in.png")).unwrap();
    assert!(!submitted.task_global_id.is_empty());

    let task = get_task(&repo, &submitted).unwrap();
    assert_eq!(task.state, TaskState::Queued);
    assert_eq!(task.result_file, None);
    assert_eq!(task.user_id, "u1");
    assert_eq!(task.task_type, "resize");
    assert_eq!(task.source_file, "in.png");
    assert_eq!(task.global_id, submitted.task_global_id);

    let started = start_task(&mut repo, &submitted).unwrap();
    assert_eq!(started.task_global_id, submitted.task_global_id);
    assert_eq!(get_task(&repo, &submitted).unwrap().state, TaskState::InProgress);

    assert_eq!(start_task(&mut repo, &submitted).err(), Some(TaskError::BadTaskRequest));
    assert_eq!(start_task(&mut repo, &submitted).err().unwrap().status_code(), 400);
    let after = get_task(&repo, &submitted).unwrap();
    assert_eq!(after.state, TaskState::InProgress);
    assert_eq!(after.result_file, None);
}

#[test]
fn fetch_never_submitted_is_not_found() {
    let mut repo = TaskRepository::new(4);
    let mut ids = IdSource::new();
    assert_eq!(get_task(&repo, &id_of("task-0000000000000000")).err(), Some(TaskError::TaskNotFound));
    submit_task(&mut repo, &mut ids, &request("u1", "resize", "in.png")).unwrap();
    assert_eq!(get_task(&repo, &id_of("task-0000000000000001")).err(), Some(TaskError::TaskNotFound));
    assert_eq!(get_task(&repo, &id_of("")).err(), Some(TaskError::TaskNotFound));
}

#[test]
fn transitions_on_unknown_task_are_not_found() {
    let mut repo = TaskRepository::new(4);
    let unknown = id_of("nope");
    assert_eq!(start_task(&mut repo, &unknown).err(), Some(TaskError::TaskNotFound));
    assert_eq!(
        complete_task(&mut repo, &unknown, "out.png".to_string()).err(),
        Some(TaskError::TaskNotFound)
    );
    assert_eq!(fail_task(&mut repo, &unknown).err(), Some(TaskError::TaskNotFound));
}

#[test]
fn complete_in_progress_task_stores_result() {
    let mut repo = TaskRepository::new(4);
    let mut ids = IdSource::new();
    let id = submit_task(&mut repo, &mut ids, &request("u2", "transcode", "a.mov")).unwrap();
    start_task(&mut repo, &id).unwrap();
    let done = complete_task(&mut repo, &id, "a.mp4".to_string()).unwrap();
    assert_eq!(done.task_global_id, id.task_global_id);
    let task = get_task(&repo, &id).unwrap();
    assert_eq!(task.state, TaskState::Completed);
    assert_eq!(task.result_file, Some("a.mp4".to_string()));
    for target in ALL_STATES.iter() {
        assert!(!task.can_transition_to(target));
    }
    assert_eq!(start_task(&mut repo, &id).err(), Some(TaskError::BadTaskRequest));
    assert_eq!(fail_task(&mut repo, &id).err(), Some(TaskError::BadTaskRequest));
    assert_eq!(get_task(&repo, &id).unwrap().result_file, Some("a.mp4".to_string()));
}

#[test]
fn fail_in_progress_task() {
    let mut repo = TaskRepository::new(4);
    let mut ids = IdSource::new();
    let id = submit_task(&mut repo, &mut ids, &request("u3", "resize", "b.png")).unwrap();
    start_task(&mut repo, &id).unwrap();
    fail_task(&mut repo, &id).unwrap();
    let task = get_task(&repo, &id).unwrap();
    assert_eq!(task.state, TaskState::Failed);
    assert_eq!(task.result_file, None);
    assert_eq!(start_task(&mut repo, &id).err(), Some(TaskError::BadTaskRequest));
    assert_eq!(
        complete_task(&mut repo, &id, "x".to_string()).err(),
        Some(TaskError::BadTaskRequest)
    );
}

#[test]
fn queued_task_cannot_skip_in_progress() {
    let mut repo = TaskRepository::new(4);
    let mut ids = IdSource::new();
    let id = submit_task(&mut repo, &mut ids, &request("u4", "resize", "c.png")).unwrap();
    assert_eq!(
        complete_task(&mut repo, &id, "c2.png".to_string()).err(),
        Some(TaskError::BadTaskRequest)
    );
    assert_eq!(fail_task(&mut repo, &id).err(), Some(TaskError::BadTaskRequest));
    let task = get_task(&repo, &id).unwrap();
    assert_eq!(task.state, TaskState::Queued);
    assert_eq!(task.result_file, None);
}

#[test]
fn legal_edges_are_exactly_three() {
    for from in ALL_STATES.iter() {
        for to in ALL_STATES.iter() {
            let expected = matches!(
                (from, to),
                (TaskState::Queued, TaskState::InProgress)
                    | (TaskState::InProgress, TaskState::Completed)
                    | (TaskState::InProgress, TaskState::Failed)
            );
            assert_eq!(from.can_transition_to(to), expected);
        }
    }
    assert!(TaskState::Queued.can_transition_to(&TaskState::InProgress));
    assert!(!TaskState::Queued.can_transition_to(&TaskState::Queued));
    assert!(!TaskState::Completed.can_transition_to(&TaskState::Failed));
    assert!(!TaskState::Failed.can_transition_to(&TaskState::InProgress));
}

#[test]
fn new_tasks_get_distinct_nonempty_ids() {
    let mut ids = IdSource::new();
    let mut seen: Vec<String> = Vec::new();
    for _ in 0..200 {
        let task = Task::new(&mut ids, "u1".to_string(), "resize".to_string(), "in.png".to_string());
        assert!(!task.get_global_id().is_empty());
        assert_eq!(task.state, TaskState::Queued);
        assert_eq!(task.result_file, None);
        assert!(!seen.contains(&task.global_id));
        seen.push(task.get_global_id());
    }
}

#[test]
fn id_text_has_sixteen_hex_digits() {
    assert_eq!(format_id(0), "task-0000000000000000");
    assert_eq!(format_id(255), "task-00000000000000ff");
    assert_eq!(format_id(0x0123_4567_89ab_cdef), "task-0123456789abcdef");
    assert_eq!(format_id(u64::MAX), "task-ffffffffffffffff");
    let mut ids = IdSource::new();
    assert_eq!(ids.issue(), "task-0000000000000000");
    assert_eq!(ids.issue(), "task-0000000000000001");
    assert!(ids.has_capacity());
}

#[test]
fn full_store_refuses_new_task() {
    let mut repo = TaskRepository::new(1);
    let mut ids = IdSource::new();
    let first = submit_task(&mut repo, &mut ids, &request("u1", "resize", "1.png")).unwrap();
    assert_eq!(
        submit_task(&mut repo, &mut ids, &request("u1", "resize", "2.png")).err(),
        Some(TaskError::TaskCreationFailure)
    );
    assert_eq!(get_task(&repo, &id_of("task-0000000000000001")).err(), Some(TaskError::TaskNotFound));
    start_task(&mut repo, &first).unwrap();
    assert_eq!(get_task(&repo, &first).unwrap().state, TaskState::InProgress);
}

#[test]
fn put_task_replaces_whole_record() {
    let mut repo = TaskRepository::new(1);
    let mut ids = IdSource::new();
    let task = Task::new(&mut ids, "u1".to_string(), "resize".to_string(), "in.png".to_string());
    let key = task.get_global_id();
    let mut changed = task.duplicate();
    assert_eq!(repo.put_task(task), Ok(()));
    changed.state = TaskState::InProgress;
    changed.user_id = "u9".to_string();
    assert_eq!(repo.put_task(changed), Ok(()));
    let stored = repo.get_task(&key).unwrap();
    assert_eq!(stored.state, TaskState::InProgress);
    assert_eq!(stored.user_id, "u9");
    let other = Task::new(&mut ids, "u2".to_string(), "resize".to_string(), "x.png".to_string());
    assert_eq!(repo.put_task(other), Err(StoreFull));
}

#[test]
fn plan_transition_decides_on_fetched_record() {
    assert_eq!(
        plan_transition(None, TaskState::InProgress, None).err(),
        Some(TaskError::TaskNotFound)
    );
    let mut ids = IdSource::new();
    let task = Task::new(&mut ids, "u1".to_string(), "resize".to_string(), "in.png".to_string());
    let refused = plan_transition(Some(task.duplicate()), TaskState::Completed, Some("o".to_string()));
    assert_eq!(refused.err(), Some(TaskError::BadTaskRequest));
    let planned = plan_transition(Some(task), TaskState::InProgress, None).unwrap();
    assert_eq!(planned.state, TaskState::InProgress);
    assert_eq!(planned.user_id, "u1");
}

#[test]
fn error_status_codes_and_bodies() {
    assert_eq!(TaskError::BadTaskRequest.status_code(), 400);
    assert_eq!(TaskError::TaskNotFound.status_code(), 404);
    assert_eq!(TaskError::TaskCreationFailure.status_code(), 424);
    assert_eq!(TaskError::TaskUpdateFailure.status_code(), 424);
    assert_eq!(TaskError::TaskNotFound.to_string(), "TaskNotFound");
    assert_eq!(TaskError::TaskUpdateFailure.to_string(), "TaskUpdateFailure");
    assert_eq!(TaskError::TaskCreationFailure.to_string(), "TaskCreationFailure");
    assert_eq!(TaskError::BadTaskRequest.to_string(), "BadTaskRequest");
    let response = TaskError::TaskNotFound.error_response();
    assert_eq!(response.status, 404);
    assert_eq!(response.content_type, "application/json");
    assert_eq!(response.body, "TaskNotFound");
}

#[test]
fn submit_refuses_identifier_already_stored() {
    let mut repo = TaskRepository::new(4);
    let mut other = IdSource::new();
    let existing = Task::new(&mut other, "u7".to_string(), "resize".to_string(), "old.png".to_string());
    assert_eq!(existing.global_id, format_id(0));
    assert_eq!(repo.put_task(existing), Ok(()));

    let mut ids = IdSource::new();
    assert_eq!(
        submit_task(&mut repo, &mut ids, &request("u1", "resize", "new.png")).err(),
        Some(TaskError::TaskCreationFailure)
    );
    let kept = get_task(&repo, &id_of("task-0000000000000000")).unwrap();
    assert_eq!(kept.user_id, "u7");
    assert_eq!(kept.source_file, "old.png");

    let next = submit_task(&mut repo, &mut ids, &request("u1", "resize", "new.png")).unwrap();
    assert_eq!(next.task_global_id, "task-0000000000000001");
    assert_eq!(get_task(&repo, &next).unwrap().source_file, "new.png");
}
