use ams::{Session, SessionStatus};

#[test]
fn test_session_status_display_active() {
    assert_eq!(SessionStatus::Active.to_string(), "Active");
}

#[test]
fn test_session_status_display_idle() {
    assert_eq!(SessionStatus::Idle.to_string(), "Idle");
}

#[test]
fn test_session_status_display_dead() {
    assert_eq!(SessionStatus::Dead.to_string(), "Dead");
}

#[test]
fn test_session_status_equality() {
    assert_eq!(SessionStatus::Active, SessionStatus::Active);
    assert_ne!(SessionStatus::Active, SessionStatus::Idle);
    assert_ne!(SessionStatus::Idle, SessionStatus::Dead);
}

#[test]
fn test_session_status_clone() {
    let status = SessionStatus::Active;
    let cloned = status.clone();
    assert_eq!(status, cloned);
}

#[test]
fn test_session_status_debug() {
    let debug_str = format!("{:?}", SessionStatus::Active);
    assert!(debug_str.contains("Active"));
}

#[test]
fn status_follows_attached_count() {
    assert_eq!(SessionStatus::from_attached_count(0), SessionStatus::Idle);
    assert_eq!(SessionStatus::from_attached_count(1), SessionStatus::Active);
    assert_eq!(SessionStatus::from_attached_count(u32::MAX), SessionStatus::Active);
}

#[test]
fn session_clone_keeps_fields() {
    let s = Session {
        name: "a".to_string(),
        status: SessionStatus::Idle,
        working_directory: "/tmp".to_string(),
        last_activity: 5,
        created_at: 3,
        window_count: 2,
    };
    let c = s.clone();
    assert_eq!(c.name, "a");
    assert_eq!(c.window_count, 2);
    assert_eq!(c.last_activity, 5);
}
