use vstd::prelude::*;
use vstd::string::StringExecFns;

verus! {

/// Why a job could not be handed to a queue backend.
#[derive(Debug, Clone)]
pub enum JobQueueError {
    /// The job could not be encoded for the backend.
    EnqueueError(String),
    /// The backend is at its capacity bound.
    QueueFull,
    /// The backend itself failed (connectivity, storage).
    Backend(String),
}

/// The human-readable text of a queue error.
pub open spec fn job_queue_error_text(e: JobQueueError) -> Seq<char> {
    match e {
        JobQueueError::EnqueueError(m) => "Failed to enqueue job: "@ + m@,
        JobQueueError::QueueFull => "Queue is full"@,
        JobQueueError::Backend(m) => "Backend error: "@ + m@,
    }
}

/// `prefix` followed by `m`.
pub(crate) fn prefixed(prefix: &str, m: &String) -> (r: String)
    ensures
        r@ == prefix@ + m@,
{
    prefix.to_owned().concat(m.as_str())
}

impl JobQueueError {
    /// The human-readable text of the error.
    pub fn message(&self) -> (r: String)
        ensures
            r@ == job_queue_error_text(*self),
    {
        match self {
            JobQueueError::EnqueueError(m) => prefixed("Failed to enqueue job: ", m),
            JobQueueError::QueueFull => "Queue is full".to_owned(),
            JobQueueError::Backend(m) => prefixed("Backend error: ", m),
        }
    }
}

/// Why a repository operation failed.
#[derive(Debug, Clone)]
pub enum RepoError {
    Connection(String),
    Query(String),
    NotFound,
    Constraint(String),
}

/// The human-readable text of a repository error.
pub open spec fn repo_error_text(e: RepoError) -> Seq<char> {
    match e {
        RepoError::Connection(m) => "Database connection failed: "@ + m@,
        RepoError::Query(m) => "Query execution failed: "@ + m@,
        RepoError::NotFound => "Entity not found"@,
        RepoError::Constraint(m) => "Constraint violation: "@ + m@,
    }
}

impl RepoError {
    /// The human-readable text of the error.
    pub fn message(&self) -> (r: String)
        ensures
            r@ == repo_error_text(*self),
    {
        match self {
            RepoError::Connection(m) => prefixed("Database connection failed: ", m),
            RepoError::Query(m) => prefixed("Query execution failed: ", m),
            RepoError::NotFound => "Entity not found".to_owned(),
            RepoError::Constraint(m) => prefixed("Constraint violation: ", m),
        }
    }
}

/// Why authentication or authorization failed.
#[derive(Debug, Clone)]
pub enum AuthError {
    InvalidCredentials,
    TokenExpired,
    InvalidToken(String),
    MissingAuth,
    InsufficientPermissions,
    HashingError(String),
}

/// The human-readable text of an authentication error.
pub open spec fn auth_error_text(e: AuthError) -> Seq<char> {
    match e {
        AuthError::InvalidCredentials => "Invalid credentials"@,
        AuthError::TokenExpired => "Token expired"@,
        AuthError::InvalidToken(m) => "Invalid token: "@ + m@,
        AuthError::MissingAuth => "Missing authorization header"@,
        AuthError::InsufficientPermissions => "Insufficient permissions"@,
        AuthError::HashingError(m) => "Hashing error: "@ + m@,
    }
}

impl AuthError {
    /// The human-readable text of the error.
    pub fn message(&self) -> (r: String)
        ensures
            r@ == auth_error_text(*self),
    {
        match self {
            AuthError::InvalidCredentials => "Invalid credentials".to_owned(),
            AuthError::TokenExpired => "Token expired".to_owned(),
            AuthError::InvalidToken(m) => prefixed("Invalid token: ", m),
            AuthError::MissingAuth => "Missing authorization header".to_owned(),
            AuthError::InsufficientPermissions => "Insufficient permissions".to_owned(),
            AuthError::HashingError(m) => prefixed("Hashing error: ", m),
        }
    }
}

/// Why a cache operation failed.
#[derive(Debug, Clone)]
pub enum CacheError {
    Connection(String),
    Serialization(String),
    Operation(String),
}

/// The human-readable text of a cache error.
pub open spec fn cache_error_text(e: CacheError) -> Seq<char> {
    match e {
        CacheError::Connection(m) => "Connection failed: "@ + m@,
        CacheError::Serialization(m) => "Serialization failed: "@ + m@,
        CacheError::Operation(m) => "Operation failed: "@ + m@,
    }
}

impl CacheError {
    /// The human-readable text of the error.
    pub fn message(&self) -> (r: String)
        ensures
            r@ == cache_error_text(*self),
    {
        match self {
            CacheError::Connection(m) => prefixed("Connection failed: ", m),
            CacheError::Serialization(m) => prefixed("Serialization failed: ", m),
            CacheError::Operation(m) => prefixed("Operation failed: ", m),
        }
    }
}

/// Why a publish/subscribe operation failed.
#[derive(Debug, Clone)]
pub enum PubSubError {
    PublishError(String),
    SubscribeError(String),
    Connection(String),
}

/// The human-readable text of a publish/subscribe error.
pub open spec fn pubsub_error_text(e: PubSubError) -> Seq<char> {
    match e {
        PubSubError::PublishError(m) => "Failed to publish: "@ + m@,
        PubSubError::SubscribeError(m) => "Failed to subscribe: "@ + m@,
        PubSubError::Connection(m) => "Connection error: "@ + m@,
    }
}

impl PubSubError {
    /// The human-readable text of the error.
    pub fn message(&self) -> (r: String)
        ensures
            r@ == pubsub_error_text(*self),
    {
        match self {
            PubSubError::PublishError(m) => prefixed("Failed to publish: ", m),
            PubSubError::SubscribeError(m) => prefixed("Failed to subscribe: ", m),
            PubSubError::Connection(m) => prefixed("Connection error: ", m),
        }
    }
}

/// Why a rate limit check failed.
#[derive(Debug, Clone)]
pub enum RateLimitError {
    Backend(String),
}

impl RateLimitError {
    /// The human-readable text of the error.
    pub fn message(&self) -> (r: String)
        ensures
            r@ == "Backend error: "@ + self->Backend_0@,
    {
        match self {
            RateLimitError::Backend(m) => prefixed("Backend error: ", m),
        }
    }
}

/// Why an alert could not be sent.
#[derive(Debug, Clone)]
pub enum AlertError {
    SendError(String),
}

impl AlertError {
    /// The human-readable text of the error.
    pub fn message(&self) -> (r: String)
        ensures
            r@ == "Failed to send alert: "@ + self->SendError_0@,
    {
        match self {
            AlertError::SendError(m) => prefixed("Failed to send alert: ", m),
        }
    }
}

} // verus!
