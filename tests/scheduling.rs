use tasker::dispatch::{DispatchAction, DispatchEvent, Dispatcher};
use tasker::queue::ScheduleQueue;
use tasker::recovery::{recovery_plan, RecoveryError};
use tasker::task::{ApiHash, ApiWebhook, Task, TaskKind};

fn hash_task(id: &str, execution_time: &str) -> Task {
    Task::Hash(ApiHash {
        id: id.to_string(),
        state: "todo".to_string(),
        execution_time: execution_time.to_string(),
        secret: "s3cr3t".to_string(),
    })
}

fn webhook_task(id: &str, execution_time: &str) -> Task {
    Task::Webhook(ApiWebhook {
        id: id.to_string(),
        state: "todo".to_string(),
        execution_time: execution_time.to_string(),
        url: "http://localhost:9".to_string(),
        body: "ping".to_string(),
    })
}

#[test]
fn queue_releases_in_deadline_order() {
    let mut q = ScheduleQueue::new();
    q.insert(300, hash_task("c", "x"));
    q.insert(100, hash_task("a", "x"));
    q.insert(200, webhook_task("b", "x"));
    q.insert(200, hash_task("b2", "x"));
    assert_eq!(q.len(), 4);
    assert_eq!(q.next_release(), Some(100));
    assert!(q.pop_due(99).is_none());
    let mut ids = Vec::new();
    let mut times = Vec::new();
    while let Some((at, t)) = q.pop_due(1_000) {
        times.push(at);
        ids.push(t.id().clone());
    }
    assert_eq!(times, vec![100, 200, 200, 300]);
    assert_eq!(ids, vec!["a", "b", "b2", "c"]);
    assert!(q.is_empty());
    assert_eq!(q.next_release(), None);
}

#[test]
fn dispatcher_queues_releases_and_stops() {
    let mut d = Dispatcher::new();
    let a = d.handle(DispatchEvent::Submitted { delay_ms: 200, task: hash_task("h", "x") }, 1_000);
    assert!(matches!(a, DispatchAction::Queued));
    let a = d.handle(DispatchEvent::Submitted { delay_ms: 50, task: webhook_task("w", "x") }, 1_000);
    assert!(matches!(a, DispatchAction::Queued));
    assert_eq!(d.next_release(), Some(1_050));
    assert!(matches!(d.handle(DispatchEvent::Due, 1_049), DispatchAction::Idle));
    match d.handle(DispatchEvent::Due, 1_050) {
        DispatchAction::Spawn(t) => {
            assert_eq!(t.kind(), TaskKind::Webhook);
            assert_eq!(t.id(), "w");
        }
        _ => panic!("expected a release"),
    }
    assert_eq!(d.pending(), 1);
    assert!(matches!(d.handle(DispatchEvent::Shutdown, 1_060), DispatchAction::Stop));
    assert!(!d.running());
    assert!(matches!(d.handle(DispatchEvent::Due, 5_000), DispatchAction::Stop));
    assert_eq!(d.pending(), 1);
}

#[test]
fn dispatcher_saturates_release_instant() {
    let mut d = Dispatcher::new();
    d.handle(DispatchEvent::Submitted { delay_ms: u64::MAX, task: hash_task("h", "x") }, 10);
    assert_eq!(d.next_release(), Some(u64::MAX));
}

#[test]
fn duplicate_submission_is_released_twice() {
    let mut d = Dispatcher::new();
    d.handle(DispatchEvent::Submitted { delay_ms: 10, task: hash_task("h", "x") }, 0);
    d.handle(DispatchEvent::Submitted { delay_ms: 10, task: hash_task("h", "x") }, 0);
    assert!(matches!(d.handle(DispatchEvent::Due, 10), DispatchAction::Spawn(_)));
    assert!(matches!(d.handle(DispatchEvent::Due, 10), DispatchAction::Spawn(_)));
    assert!(matches!(d.handle(DispatchEvent::Due, 10), DispatchAction::Idle));
}

#[test]
fn recovery_plan_floors_past_deadlines() {
    let now = 1_893_456_000_000;
    let tasks = vec![
        webhook_task("past", "2029-12-31T23:59:59Z"),
        hash_task("soon", "2030-01-01T00:00:02.500Z"),
    ];
    let plan = recovery_plan(tasks, now).unwrap();
    assert_eq!(plan.len(), 2);
    assert_eq!(plan[0].0, 100);
    assert_eq!(plan[0].1.id(), "past");
    assert_eq!(plan[1].0, 2_500);
    assert_eq!(plan[1].1.kind(), TaskKind::Hash);
}

#[test]
fn recovery_plan_refuses_unreadable_deadline() {
    let tasks = vec![hash_task("ok", "2030-01-01T00:00:00Z"), hash_task("bad", "never")];
    assert_eq!(recovery_plan(tasks, 0).unwrap_err(), RecoveryError::UnreadableDeadline);
    assert!(recovery_plan(Vec::new(), 0).unwrap().is_empty());
}

#[test]
fn recovery_plan_orders_by_instant_not_text() {
    let now = 1_893_456_000_000;
    let tasks = vec![
        webhook_task("late", "2030-01-01T00:00:05Z"),
        hash_task("offset", "2030-01-01T01:00:00+02:00"),
        webhook_task("tie_a", "2030-01-01T00:00:01Z"),
        hash_task("tie_b", "2030-01-01T00:00:01Z"),
    ];
    let plan = recovery_plan(tasks, now).unwrap();
    let ids: Vec<&str> = plan.iter().map(|(_, t)| t.id().as_str()).collect();
    assert_eq!(ids, vec!["offset", "tie_a", "tie_b", "late"]);
    let delays: Vec<u64> = plan.iter().map(|(d, _)| *d).collect();
    assert_eq!(delays, vec![100, 1_000, 1_000, 5_000]);
}
