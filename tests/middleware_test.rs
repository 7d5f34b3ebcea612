use rust_high_performance_api_server::config::Config;
use rust_high_performance_api_server::errors::AppError;
use rust_high_performance_api_server::middleware::auth::{same_text, ApiKeyAuth};
use rust_high_performance_api_server::middleware::logging::RequestLogging;

#[test]
fn missing_key_is_unauthorized() {
    let guard = ApiKeyAuth::new("secret").new_transform(());
    let r = guard.check("/api/v1/tasks", None);
    let e = r.unwrap_err();
    assert_eq!(e.status_code(), 401);
    assert_eq!(e.category(), "Unauthorized");
    assert_eq!(
        e.message(),
        "Missing or invalid API key. Provide X-API-Key header."
    );
}

#[test]
fn health_needs_no_key() {
    let guard = ApiKeyAuth::new("secret").new_transform(());
    assert_eq!(guard.check("/health", None), Ok(()));
}

#[test]
fn right_key_passes_wrong_key_does_not() {
    let guard = ApiKeyAuth::new("secret").new_transform(5u8);
    assert_eq!(*guard.service(), 5u8);
    assert_eq!(guard.check("/api/v1/tasks", Some("secret")), Ok(()));
    assert!(guard.check("/api/v1/tasks", Some("Secret")).is_err());
    assert!(guard.check("/api/v1/tasks", Some("secret ")).is_err());
    assert!(guard.check("/api/v1/tasks", Some("")).is_err());
}

#[test]
fn text_comparison() {
    assert!(same_text("abc", "abc"));
    assert!(!same_text("abc", "abd"));
    assert!(!same_text("abc", "ab"));
    assert!(same_text("", ""));
}

#[test]
fn error_statuses_and_categories() {
    let cases = [
        (AppError::NotFound("x".to_string()), 404, "Not Found", "x"),
        (AppError::Validation("y".to_string()), 400, "Validation Error", "y"),
        (AppError::Unauthorized("z".to_string()), 401, "Unauthorized", "z"),
        (
            AppError::Internal("secret detail".to_string()),
            500,
            "Internal Server Error",
            "An unexpected error occurred",
        ),
    ];
    for (e, status, category, message) in cases {
        assert_eq!(e.status_code(), status);
        assert_eq!(e.category(), category);
        assert_eq!(e.message(), message);
    }
}

#[test]
fn completion_record_fields() {
    let layer = RequestLogging::default().new_transform(());
    let trace = layer.start();
    let rec = layer.finish(&trace, "GET".to_string(), "/health".to_string(), 200, 3);
    assert_eq!(rec.method, "GET");
    assert_eq!(rec.path, "/health");
    assert_eq!(rec.status, 200);
    assert_eq!(rec.duration_ms, 3);
    assert_eq!(rec.trace_id, uuid::Uuid::from_u128(trace.trace_id).to_string());
    assert_eq!(rec.trace_id.len(), 36);
}

#[test]
fn default_config() {
    let c = Config::default();
    assert_eq!(c.server.address, "0.0.0.0");
    assert_eq!(c.server.port, 8080);
    assert_eq!(c.server.workers, 4);
    assert_eq!(c.api.api_key, "dev-api-key-change-in-production");
}
