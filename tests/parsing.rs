use apex::config::SecondaryDbConfig;
use apex::dto::{RateLimitResult, RegisterUserRequest};
use apex::http_error::AppError;

fn register(email: &str, password: &str) -> RegisterUserRequest {
    RegisterUserRequest { email: email.to_string(), password: password.to_string() }
}

#[test]
fn registration_accepts_plausible_input() {
    assert!(register("a@b.c", "12345678").validate().is_ok());
}

#[test]
fn registration_rejects_bad_email() {
    for email in ["", "no-at-sign"] {
        match register(email, "longenough").validate() {
            Err(AppError::BadRequest(m)) => assert_eq!(m, "Invalid email address"),
            other => panic!("unexpected {:?}", other),
        }
    }
}

#[test]
fn registration_rejects_short_password() {
    match register("a@b.c", "1234567").validate() {
        Err(AppError::BadRequest(m)) => assert_eq!(m, "Password must be at least 8 characters"),
        other => panic!("unexpected {:?}", other),
    }
    // Eight bytes in four characters.
    assert!(register("a@b.c", "éééé").validate().is_ok());
}

#[test]
fn window_reply_within_limit() {
    let r = RateLimitResult::from_window_reply(&vec![1, 60], 2);
    assert_eq!(r, RateLimitResult { allowed: true, remaining: 1, reset_after_secs: 60 });
    let r = RateLimitResult::from_window_reply(&vec![2, 0], 2);
    assert_eq!(r, RateLimitResult { allowed: true, remaining: 0, reset_after_secs: 1 });
}

#[test]
fn window_reply_over_limit() {
    let r = RateLimitResult::from_window_reply(&vec![3, 42], 2);
    assert_eq!(r, RateLimitResult { allowed: false, remaining: 0, reset_after_secs: 42 });
}

#[test]
fn window_reply_missing_values() {
    let r = RateLimitResult::from_window_reply(&vec![], 100);
    assert_eq!(r, RateLimitResult { allowed: true, remaining: 99, reset_after_secs: 60 });
}

#[test]
fn secondary_entry_with_count() {
    let c = SecondaryDbConfig::from_env_entry("SECONDARY_DB_ANALYTICS", "postgres://h/db,35").unwrap();
    assert_eq!(c.name, "analytics");
    assert_eq!(c.url, "postgres://h/db");
    assert_eq!(c.max_connections, 35);
}

#[test]
fn secondary_entry_defaults_count() {
    let c = SecondaryDbConfig::from_env_entry("SECONDARY_DB_Logs", "postgres://h/logs").unwrap();
    assert_eq!(c.name, "logs");
    assert_eq!(c.url, "postgres://h/logs");
    assert_eq!(c.max_connections, 20);
    let d = SecondaryDbConfig::from_parts("x".to_string(), "u,many");
    assert_eq!(d.max_connections, 20);
    let e = SecondaryDbConfig::from_parts("x".to_string(), "u,+7,9");
    assert_eq!((e.url.as_str(), e.max_connections), ("u", 20));
    let f = SecondaryDbConfig::from_parts("x".to_string(), "u,+7");
    assert_eq!(f.max_connections, 7);
}

#[test]
fn other_variables_are_not_secondary() {
    assert!(SecondaryDbConfig::from_env_entry("DATABASE_URL", "postgres://h/db").is_none());
    assert!(SecondaryDbConfig::from_env_entry("SECONDARY_DB", "x").is_none());
}

use apex::dto::RateLimitResult as Verdict;
use apex::error::{AuthError, RateLimitError};
use apex::http_error::{bearer_token, rate_limit_rejection, AuthorizationHeader};
use apex::text::{decimal, starts_with};

#[test]
fn bearer_token_is_taken_from_header() {
    let t = bearer_token(&AuthorizationHeader::Text("Bearer abc.def".to_string()));
    assert_eq!(t.unwrap(), "abc.def");
    let empty = bearer_token(&AuthorizationHeader::Text("Bearer ".to_string()));
    assert_eq!(empty.unwrap(), "");
}

#[test]
fn bearer_token_failures() {
    assert!(matches!(bearer_token(&AuthorizationHeader::Missing), Err(AuthError::MissingAuth)));
    match bearer_token(&AuthorizationHeader::Unreadable) {
        Err(AuthError::InvalidToken(m)) => assert_eq!(m, "Invalid authorization header"),
        other => panic!("unexpected {:?}", other),
    }
    match bearer_token(&AuthorizationHeader::Text("Basic dXNlcg==".to_string())) {
        Err(AuthError::InvalidToken(m)) => assert_eq!(m, "Expected Bearer token"),
        other => panic!("unexpected {:?}", other),
    }
}

#[test]
fn rate_limited_request_is_refused() {
    let check = Ok(Verdict { allowed: false, remaining: 0, reset_after_secs: 42 });
    let e = rate_limit_rejection(&check).unwrap();
    assert_eq!(e.status, 429);
    assert_eq!(e.title, "Too Many Requests");
    assert_eq!(e.detail.as_deref(), Some("Rate limit exceeded. Try again in 42 seconds."));
}

#[test]
fn allowed_or_failed_check_lets_request_through() {
    let ok = Ok(Verdict { allowed: true, remaining: 5, reset_after_secs: 60 });
    assert!(rate_limit_rejection(&ok).is_none());
    let failed: Result<Verdict, RateLimitError> = Err(RateLimitError::Backend("down".to_string()));
    assert!(rate_limit_rejection(&failed).is_none());
}

#[test]
fn decimal_text_of_numbers() {
    assert_eq!(decimal(0), "0");
    assert_eq!(decimal(7), "7");
    assert_eq!(decimal(1500), "1500");
    assert_eq!(decimal(u64::MAX), u64::MAX.to_string());
}

#[test]
fn prefix_check() {
    assert!(starts_with("Bearer x", "Bearer "));
    assert!(!starts_with("Bear", "Bearer "));
    assert!(starts_with("anything", ""));
}
