use vstd::prelude::*;
use vstd::string::StrSliceExecFns;
use vstd::utf8::encode_utf8;

use crate::http_error::AppError;

verus! {

/// Request to register a new user.
#[derive(Debug, Clone)]
pub struct RegisterUserRequest {
    pub email: String,
    pub password: String,
}

/// Whether `email` could be an address: not empty, with an `@` in it.
pub open spec fn plausible_email(email: Seq<char>) -> bool {
    email.len() > 0 && exists|i: int| 0 <= i < email.len() && email[i] == '@'
}

/// Least length of a password, in bytes of its UTF-8 encoding.
pub const MIN_PASSWORD_BYTES: usize = 8;

/// Length of `password` in bytes of its UTF-8 encoding, as `str::len` reports it.
pub open spec fn password_bytes(password: Seq<char>) -> usize {
    encode_utf8(password).len() as usize
}

fn has_at_sign(s: &str) -> (r: bool)
    ensures
        r == exists|i: int| 0 <= i < s@.len() && s@[i] == '@',
{
    let n = s.unicode_len();
    let mut i: usize = 0;
    while i < n
        invariant
            n == s@.len(),
            0 <= i <= n,
            forall|j: int| 0 <= j < i ==> s@[j] != '@',
        decreases n - i,
    {
        if s.get_char(i) == '@' {
            return true;
        }
        i += 1;
    }
    false
}

impl RegisterUserRequest {
    /// Checks the request before any account work: the address must be
    /// plausible, then the password long enough.
    pub fn validate(&self) -> (r: Result<(), AppError>)
        ensures
            !plausible_email(self.email@) ==> {
                &&& r is Err
                &&& r->Err_0 is BadRequest
                &&& r->Err_0->BadRequest_0@ == "Invalid email address"@
            },
            plausible_email(self.email@) && password_bytes(self.password@) < MIN_PASSWORD_BYTES
                ==> {
                &&& r is Err
                &&& r->Err_0 is BadRequest
                &&& r->Err_0->BadRequest_0@ == "Password must be at least 8 characters"@
            },
            r is Ok <==> plausible_email(self.email@) && password_bytes(self.password@)
                >= MIN_PASSWORD_BYTES,
    {
        let email = self.email.as_str();
        if email.is_empty() || !has_at_sign(email) {
            return Err(AppError::BadRequest("Invalid email address".to_owned()));
        }
        if self.password.as_str().len() < MIN_PASSWORD_BYTES {
            return Err(AppError::BadRequest("Password must be at least 8 characters".to_owned()));
        }
        Ok(())
    }
}

/// Request to log in.
#[derive(Debug, Clone)]
pub struct LoginRequest {
    pub email: String,
    pub password: String,
}

/// A user's public information.
#[derive(Debug, Clone)]
pub struct UserResponse {
    pub id: String,
    pub email: String,
    pub created_at: String,
}

/// Tokens handed out on registration or login.
#[derive(Debug, Clone)]
pub struct AuthResponse {
    pub access_token: String,
    pub token_type: String,
    pub expires_in: u64,
}

/// Answer of the health endpoint.
#[derive(Debug, Clone)]
pub struct HealthResponse {
    pub status: String,
    pub version: String,
    pub timestamp: String,
}

/// A message received on a publish/subscribe channel.
#[derive(Debug, Clone)]
pub struct PubSubMessage {
    pub channel: String,
    pub payload: String,
}

/// Answer of one rate limit check.
#[derive(Debug, Clone, Copy, PartialEq, Eq, Structural)]
pub struct RateLimitResult {
    /// Whether the request may go ahead.
    pub allowed: bool,
    /// Requests left in the current window.
    pub remaining: u32,
    /// Seconds until the window resets.
    pub reset_after_secs: u64,
}

/// Requests counted in the current window, from the store's reply
/// `[count, seconds left]` (a missing count reads as one).
pub open spec fn reply_count(reply: Seq<i64>) -> u32 {
    if reply.len() > 0 {
        reply[0] as u32
    } else {
        1
    }
}

/// Seconds until the window resets, from the store's reply (a missing value
/// reads as sixty, and the result is at least one).
pub open spec fn reply_reset_secs(reply: Seq<i64>) -> u64 {
    let t = if reply.len() > 1 {
        reply[1]
    } else {
        60
    };
    if t > 1 {
        t as u64
    } else {
        1
    }
}

impl RateLimitResult {
    /// The answer for a fixed-window counter whose reply is `reply` and
    /// whose limit is `max_requests`: allowed while the count is within the
    /// limit, with the requests left in the window.
    pub fn from_window_reply(reply: &Vec<i64>, max_requests: u32) -> (r: RateLimitResult)
        ensures
            r.allowed == (reply_count(reply@) <= max_requests),
            r.remaining == if r.allowed {
                (max_requests - reply_count(reply@)) as u32
            } else {
                0
            },
            r.reset_after_secs == reply_reset_secs(reply@),
    {
        let count: u32 = if reply.len() > 0 {
            reply[0] as u32
        } else {
            1
        };
        let t: i64 = if reply.len() > 1 {
            reply[1]
        } else {
            60
        };
        let reset: u64 = if t > 1 {
            t as u64
        } else {
            1
        };
        let allowed = count <= max_requests;
        let remaining = if allowed {
            max_requests - count
        } else {
            0
        };
        RateLimitResult { allowed, remaining, reset_after_secs: reset }
    }
}

/// Identifier of one HTTP request, for tracing.
#[derive(Debug, Clone)]
pub struct RequestId(pub String);

impl RequestId {
    /// The identifier's text.
    pub fn as_str(&self) -> (r: &str)
        ensures
            r@ == self.0@,
    {
        self.0.as_str()
    }
}

} // verus!
