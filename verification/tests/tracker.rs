use agama_core::events::{Event, ServiceStatus};
use agama_core::service_status::{ServiceStatusError, ServiceStatusManager};

fn steps2() -> Vec<String> {
    vec!["A".to_string(), "B".to_string()]
}

#[test]
fn busy_through_whole_lifecycle() {
    let mut t = ServiceStatusManager::new("svc".to_string());
    assert!(!t.is_busy());
    t.start(steps2()).unwrap();
    assert!(t.is_busy());
    t.next();
    assert!(t.is_busy());
    t.next();
    assert!(t.is_busy());
    t.finish();
    assert!(!t.is_busy());
}

#[test]
fn start_when_busy_fails_and_changes_nothing() {
    let mut t = ServiceStatusManager::new("svc".to_string());
    t.start(steps2()).unwrap();
    t.next().unwrap();
    let before = t.get_progress().unwrap();
    let r = t.start(vec!["X".to_string()]);
    assert_eq!(r.unwrap_err(), ServiceStatusError::AlreadyBusy);
    assert!(t.is_busy());
    assert_eq!(t.get_progress().unwrap(), before);
}

#[test]
fn next_excess_returns_none_and_keeps_last_step() {
    let mut t = ServiceStatusManager::new("svc".to_string());
    t.start(steps2()).unwrap();
    assert!(t.next().is_some());
    let last = t.get_progress().unwrap();
    assert!(t.next().is_none());
    assert!(t.next().is_none());
    assert_eq!(t.get_progress().unwrap(), last);
}

#[test]
fn next_without_sequence_returns_none() {
    let mut t = ServiceStatusManager::new("svc".to_string());
    assert!(t.next().is_none());
    assert!(!t.is_busy());
}

#[test]
fn finish_is_idempotent() {
    let mut t = ServiceStatusManager::new("svc".to_string());
    t.start(steps2()).unwrap();
    let first = t.finish();
    let second = t.finish();
    assert_eq!(first, second);
    assert_eq!(first.len(), 2);
    match &first[0] {
        Event::Progress { service, progress } => {
            assert_eq!(service, "svc");
            assert_eq!(progress.current_step, 0);
            assert_eq!(progress.max_steps, 0);
            assert_eq!(progress.current_title, "");
            assert!(progress.finished);
        }
        other => panic!("expected a progress event, got {:?}", other),
    }
    match &first[1] {
        Event::ServiceStatusChanged { service, status } => {
            assert_eq!(service, "svc");
            assert_eq!(*status, ServiceStatus::Idle);
        }
        other => panic!("expected a status event, got {:?}", other),
    }
    assert!(t.get_progress().is_none());
}

#[test]
fn scenario_svc() {
    let mut t = ServiceStatusManager::new("svc".to_string());
    t.start(steps2()).unwrap();

    let p = t.get_progress().unwrap();
    assert_eq!(p.steps, vec!["A".to_string(), "B".to_string()]);
    assert_eq!(p.current_step, 0);
    assert_eq!(p.max_steps, 2);
    assert_eq!(p.current_title, "A");
    assert!(!p.finished);

    t.next().unwrap();
    let p = t.get_progress().unwrap();
    assert_eq!(p.current_step, 1);
    assert_eq!(p.max_steps, 2);
    assert_eq!(p.current_title, "B");

    t.finish();
    assert!(t.get_progress().is_none());
    assert!(!t.is_busy());
}

#[test]
fn start_emits_progress_then_status() {
    let mut t = ServiceStatusManager::new("svc".to_string());
    let events = t.start(steps2()).unwrap();
    assert_eq!(events.len(), 2);
    match &events[0] {
        Event::Progress { service, progress } => {
            assert_eq!(service, "svc");
            assert_eq!(progress.current_step, 0);
            assert_eq!(progress.max_steps, 2);
            assert_eq!(progress.current_title, "A");
            assert!(!progress.finished);
        }
        other => panic!("expected a progress event, got {:?}", other),
    }
    match &events[1] {
        Event::ServiceStatusChanged { service, status } => {
            assert_eq!(service, "svc");
            assert_eq!(*status, ServiceStatus::Busy);
        }
        other => panic!("expected a status event, got {:?}", other),
    }
}

#[test]
fn next_event_carries_new_snapshot() {
    let mut t = ServiceStatusManager::new("svc".to_string());
    t.start(steps2()).unwrap();
    match t.next().unwrap() {
        Event::Progress { service, progress } => {
            assert_eq!(service, "svc");
            assert_eq!(progress.current_step, 1);
            assert_eq!(progress.max_steps, 2);
            assert_eq!(progress.current_title, "B");
            assert!(!progress.finished);
        }
        other => panic!("expected a progress event, got {:?}", other),
    }
}

#[test]
fn complete_step_failure_still_releases_busy() {
    let mut t = ServiceStatusManager::new("svc".to_string());
    t.start(steps2()).unwrap();
    let (events, over) = t.complete_step(false);
    assert!(over);
    assert!(!t.is_busy());
    assert_eq!(events.len(), 3);
    match &events[0] {
        Event::TaskFailed { service } => assert_eq!(service, "svc"),
        other => panic!("expected a task-failed event, got {:?}", other),
    }
    match &events[1] {
        Event::Progress { progress, .. } => assert!(progress.finished),
        other => panic!("expected a progress event, got {:?}", other),
    }
    match &events[2] {
        Event::ServiceStatusChanged { status, .. } => assert_eq!(*status, ServiceStatus::Idle),
        other => panic!("expected a status event, got {:?}", other),
    }
}

#[test]
fn complete_step_success_walks_to_the_end() {
    let mut t = ServiceStatusManager::new("svc".to_string());
    t.start(steps2()).unwrap();
    let (events, over) = t.complete_step(true);
    assert!(!over);
    assert_eq!(events.len(), 1);
    assert!(t.is_busy());
    assert_eq!(t.get_progress().unwrap().current_step, 1);
    let (events, over) = t.complete_step(true);
    assert!(over);
    assert_eq!(events.len(), 2);
    assert!(!t.is_busy());
}

#[test]
fn complete_step_when_idle_does_nothing() {
    let mut t = ServiceStatusManager::new("svc".to_string());
    let (events, over) = t.complete_step(true);
    assert!(over);
    assert!(events.is_empty());
    assert!(!t.is_busy());
}

#[test]
fn empty_step_list_still_tracks_busy() {
    let mut t = ServiceStatusManager::new("svc".to_string());
    let events = t.start(Vec::new()).unwrap();
    assert_eq!(events.len(), 2);
    match &events[0] {
        Event::Progress { progress, .. } => {
            assert_eq!(progress.current_step, 0);
            assert_eq!(progress.max_steps, 0);
            assert_eq!(progress.current_title, "");
        }
        other => panic!("expected a progress event, got {:?}", other),
    }
    assert!(t.is_busy());
    assert!(t.next().is_none());
    t.finish();
    assert!(!t.is_busy());
}
