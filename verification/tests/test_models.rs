use charon::models::{GhostAgent, TaskStatus};

#[test]
fn test_task_status_display() {
    assert_eq!(TaskStatus::Pending.label(), "PENDING");
    assert_eq!(TaskStatus::Sent.label(), "SENT");
    assert_eq!(TaskStatus::Running.label(), "RUNNING");
    assert_eq!(TaskStatus::Success.label(), "SUCCESS");
    assert_eq!(TaskStatus::Failed.label(), "FAILED");
    assert_eq!(TaskStatus::Unknown.label(), "UNKNOWN");
}

#[test]
fn test_ghost_is_active() {
    let ghost = GhostAgent {
        id: "test_ghost".to_string(),
        hostname: "host".to_string(),
        os: "linux".to_string(),
        last_seen: 1000,
    };

    assert!(ghost.is_active(1050, 60));
    assert!(!ghost.is_active(1100, 60));
}

#[test]
fn task_status_wire_names_round_trip() {
    assert_eq!(charon::models::task_status_from_wire("pending"), TaskStatus::Pending);
    assert_eq!(charon::models::task_status_from_wire("sent"), TaskStatus::Sent);
    assert_eq!(charon::models::task_status_from_wire("running"), TaskStatus::Running);
    assert_eq!(charon::models::task_status_from_wire("success"), TaskStatus::Success);
    assert_eq!(charon::models::task_status_from_wire("failed"), TaskStatus::Failed);
    assert_eq!(charon::models::task_status_from_wire("queued"), TaskStatus::Unknown);
    assert_eq!(charon::models::task_status_from_wire(""), TaskStatus::Unknown);
    assert_eq!(charon::models::task_status_from_wire("Pending"), TaskStatus::Unknown);
}

#[test]
fn ghost_is_active_at_exact_timeout() {
    let ghost = GhostAgent {
        id: "g".to_string(),
        hostname: "h".to_string(),
        os: "linux".to_string(),
        last_seen: 0,
    };
    assert!(!ghost.is_active(60, 60));
    assert!(ghost.is_active(59, 60));
}
