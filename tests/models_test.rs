use rust_high_performance_api_server::errors::AppError;
use rust_high_performance_api_server::models::{is_blank, HealthResponse, Task, SERVICE_VERSION};

fn sample() -> Task {
    Task {
        id: 1,
        title: "Write report".to_string(),
        description: Some("quarterly".to_string()),
        completed: false,
        created_at: 100,
        updated_at: 100,
    }
}

#[test]
fn blank_titles() {
    assert!(is_blank(""));
    assert!(is_blank("   "));
    assert!(is_blank("\t\n\u{3000}"));
    assert!(!is_blank(" x "));
    assert!(!is_blank("Buy milk"));
}

#[test]
fn create_keeps_fields() {
    let t = Task::create("Buy milk".to_string(), Some("2 litres".to_string())).unwrap();
    assert_eq!(t.title, "Buy milk");
    assert_eq!(t.description, Some("2 litres".to_string()));
    assert!(!t.completed);
    assert_eq!(t.created_at, t.updated_at);
}

#[test]
fn create_rejects_blank() {
    assert_eq!(
        Task::create("   ".to_string(), None),
        Err(AppError::Validation("Title cannot be empty".to_string()))
    );
}

#[test]
fn update_at_completes_only() {
    let mut t = sample();
    t.update_at(None, None, Some(true), 250);
    assert_eq!(t.title, "Write report");
    assert_eq!(t.description, Some("quarterly".to_string()));
    assert!(t.completed);
    assert_eq!(t.updated_at, 250);
    assert_eq!(t.created_at, 100);
    assert_eq!(t.id, 1);
}

#[test]
fn update_at_replaces_supplied_fields() {
    let mut t = sample();
    t.update_at(Some("New".to_string()), Some(None), None, 300);
    assert_eq!(t.title, "New");
    assert_eq!(t.description, None);
    assert!(!t.completed);
    assert_eq!(t.updated_at, 300);
}

#[test]
fn apply_update_rejects_empty_title() {
    let mut t = sample();
    let r = t.apply_update(Some("".to_string()), None, Some(true));
    assert_eq!(r, Err(AppError::Validation("Title cannot be empty".to_string())));
    assert_eq!(t, sample());
}

#[test]
fn apply_update_sets_completed() {
    let mut t = sample();
    assert_eq!(t.apply_update(None, None, Some(true)), Ok(()));
    assert!(t.completed);
    assert_eq!(t.title, "Write report");
    assert_eq!(t.description, Some("quarterly".to_string()));
    assert!(t.updated_at > 100);
}

#[test]
fn health_report() {
    let h = HealthResponse::ok();
    assert_eq!(h.status, "healthy");
    assert_eq!(h.version, SERVICE_VERSION);
    assert!(h.timestamp > 0);
}
