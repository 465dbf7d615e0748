use apex::config::{
    AlertConfig, JwtConfig, LogLevel, RateLimitConfig, RedisRateLimitConfig, SchedulerConfig,
    TelemetryConfig,
};
use apex::dto::RequestId;
use apex::error::{AlertError, AuthError, CacheError, PubSubError, RateLimitError, RepoError};
use apex::http_error::{AppError, AuthenticationError};
use apex::response::{ApiResponse, ErrorResponse};

#[test]
fn error_response_new_is_blank_problem() {
    let e = ErrorResponse::new(418, "Teapot".to_string());
    assert_eq!(e.error_type, "about:blank");
    assert_eq!(e.title, "Teapot");
    assert_eq!(e.status, 418);
    assert!(e.detail.is_none() && e.instance.is_none() && e.request_id.is_none());
}

#[test]
fn error_response_builders() {
    let e = ErrorResponse::not_found("no user".to_string()).with_request_id("req-1".to_string());
    assert_eq!(e.status, 404);
    assert_eq!(e.title, "Not Found");
    assert_eq!(e.detail.as_deref(), Some("no user"));
    assert_eq!(e.request_id.as_deref(), Some("req-1"));
    let b = ErrorResponse::bad_request("bad".to_string());
    assert_eq!((b.status, b.title.as_str(), b.detail.as_deref()), (400, "Bad Request", Some("bad")));
    assert_eq!(ErrorResponse::unauthorized().status, 401);
    assert_eq!(ErrorResponse::forbidden().title, "Forbidden");
    let i = ErrorResponse::internal_error();
    assert_eq!((i.status, i.title.as_str()), (500, "Internal Server Error"));
}

#[test]
fn api_response_ok() {
    let r = ApiResponse::ok(5);
    assert!(r.success);
    assert_eq!(r.data, Some(5));
    assert!(r.message.is_none());
    let m = ApiResponse::ok_with_message("x", "done".to_string());
    assert_eq!(m.message.as_deref(), Some("done"));
}

#[test]
fn app_error_statuses_and_bodies() {
    let v = AppError::Validation(vec!["email missing".to_string(), "password short".to_string()]);
    assert_eq!(v.status_code(), 422);
    let body = v.error_response();
    assert_eq!(body.title, "Validation Failed");
    assert_eq!(body.detail.as_deref(), Some("email missing, password short"));
    let c = AppError::Conflict("taken".to_string());
    assert_eq!(c.status_code(), 409);
    assert_eq!(c.error_response().detail.as_deref(), Some("taken"));
    let i = AppError::Internal("secret cause".to_string()).error_response();
    assert_eq!(i.status, 500);
    assert!(i.detail.is_none());
    assert_eq!(AppError::NotFound("x".to_string()).status_code(), 404);
    assert_eq!(AppError::BadRequest("x".to_string()).status_code(), 400);
    assert_eq!(AppError::Unauthorized.status_code(), 401);
    assert_eq!(AppError::Forbidden.status_code(), 403);
    assert!(AppError::Validation(vec![]).error_response().detail.unwrap().is_empty());
}

#[test]
fn repo_errors_map_to_app_errors() {
    assert!(matches!(AppError::from_repo(RepoError::NotFound), AppError::NotFound(m) if m == "Resource not found"));
    assert!(matches!(AppError::from_repo(RepoError::Constraint("dup".to_string())), AppError::Conflict(m) if m == "dup"));
    assert!(matches!(AppError::from_repo(RepoError::Query("q".to_string())), AppError::Internal(m) if m == "Database error"));
    assert!(matches!(AppError::from_repo(RepoError::Connection("c".to_string())), AppError::Internal(m) if m == "Database error"));
}

#[test]
fn authentication_errors() {
    let e = AuthenticationError(AuthError::TokenExpired);
    assert_eq!(e.status_code(), 401);
    assert_eq!(e.error_response().title, "Token Expired");
    let m = AuthenticationError(AuthError::MissingAuth).error_response();
    assert_eq!(
        m.detail.as_deref(),
        Some("Please provide a valid Bearer token in the Authorization header.")
    );
    let t = AuthenticationError(AuthError::InvalidToken("bad sig".to_string()));
    assert_eq!(t.error_response().detail.as_deref(), Some("bad sig"));
    assert_eq!(t.message(), "Invalid token: bad sig");
    assert_eq!(AuthenticationError(AuthError::InsufficientPermissions).status_code(), 403);
    assert_eq!(AuthenticationError(AuthError::InvalidCredentials).status_code(), 500);
}

#[test]
fn error_messages() {
    assert_eq!(RepoError::NotFound.message(), "Entity not found");
    assert_eq!(RepoError::Query("q".to_string()).message(), "Query execution failed: q");
    assert_eq!(AuthError::MissingAuth.message(), "Missing authorization header");
    assert_eq!(CacheError::Operation("o".to_string()).message(), "Operation failed: o");
    assert_eq!(PubSubError::Connection("c".to_string()).message(), "Connection error: c");
    assert_eq!(RateLimitError::Backend("b".to_string()).message(), "Backend error: b");
    assert_eq!(AlertError::SendError("s".to_string()).message(), "Failed to send alert: s");
}

#[test]
fn config_defaults() {
    assert!(SchedulerConfig::default().enabled);
    let t = TelemetryConfig::default();
    assert_eq!(t.service_name, "apex-api");
    assert!(!t.json_logs && t.alerts_enabled && t.alert_webhook_url.is_none());
    let a = AlertConfig::default();
    assert_eq!((a.min_level, a.buffer_size), (LogLevel::Error, 100));
    let j = JwtConfig::default();
    assert_eq!((j.expiration_hours, j.issuer.as_str()), (24, "apex-api"));
    let r = RateLimitConfig::default();
    assert_eq!((r.max_requests, r.window_secs), (100, 60));
    let rr = RedisRateLimitConfig::default();
    assert_eq!(rr.make_key("10.0.0.1"), "ratelimit:10.0.0.1");
}

#[test]
fn request_id_text() {
    assert_eq!(RequestId("abc-123".to_string()).as_str(), "abc-123");
}
