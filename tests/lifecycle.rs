use tasker::lifecycle::{claim, fail_unclaimed, finish, heal, may_delete, TaskState};

#[test]
fn only_first_of_three_claims_wins() {
    let mut state = TaskState::Todo;
    let rows: Vec<u64> = (0..3).map(|_| claim(&mut state)).collect();
    assert_eq!(rows, vec![1, 0, 0]);
    assert_eq!(state, TaskState::InProgress);
}

#[test]
fn claim_on_finished_task_affects_nothing() {
    for s in [TaskState::InProgress, TaskState::Failed, TaskState::Done] {
        let mut state = s;
        assert_eq!(claim(&mut state), 0);
        assert_eq!(state, s);
    }
}

#[test]
fn healing_resets_interrupted_claim_then_runs_once() {
    let mut state = TaskState::InProgress;
    assert_eq!(heal(&mut state), 1);
    assert_eq!(state, TaskState::Todo);
    assert_eq!(claim(&mut state), 1);
    assert_eq!(claim(&mut state), 0);
    finish(&mut state, true);
    assert_eq!(state, TaskState::Done);
}

#[test]
fn healing_leaves_other_states() {
    for s in [TaskState::Todo, TaskState::Failed, TaskState::Done] {
        let mut state = s;
        assert_eq!(heal(&mut state), 0);
        assert_eq!(state, s);
    }
}

#[test]
fn unreadable_deadline_fails_only_unclaimed_tasks() {
    let mut state = TaskState::Todo;
    assert_eq!(fail_unclaimed(&mut state), 1);
    assert_eq!(state, TaskState::Failed);
    let mut state = TaskState::InProgress;
    assert_eq!(fail_unclaimed(&mut state), 0);
    assert_eq!(state, TaskState::InProgress);
}

#[test]
fn terminal_write_of_failure() {
    let mut state = TaskState::InProgress;
    finish(&mut state, false);
    assert_eq!(state, TaskState::Failed);
}

#[test]
fn deletion_guard() {
    assert!(!may_delete(TaskState::InProgress));
    assert!(may_delete(TaskState::Todo));
    assert!(may_delete(TaskState::Failed));
    assert!(may_delete(TaskState::Done));
}

#[test]
fn state_text_round_trip() {
    for s in [TaskState::Todo, TaskState::InProgress, TaskState::Failed, TaskState::Done] {
        assert_eq!(TaskState::parse(s.as_str()), Some(s));
    }
    assert_eq!(TaskState::InProgress.as_str(), "in_progress");
    assert_eq!(TaskState::parse("TODO"), None);
    assert_eq!(TaskState::parse(""), None);
}
