use vstd::prelude::*;
use vstd::string::{StrSliceExecFns, StringExecFns};

use crate::dto::RateLimitResult;
use crate::error::{auth_error_text, AuthError, RateLimitError, RepoError};
use crate::response::{blank_type, is_detailed_problem, is_plain_problem, ErrorResponse};
use crate::text::{decimal, decimal_text, has_prefix, starts_with};

verus! {

/// Application-level error, answered with RFC 7807 problem details.
#[derive(Debug, Clone)]
pub enum AppError {
    NotFound(String),
    BadRequest(String),
    Unauthorized,
    Forbidden,
    Conflict(String),
    Internal(String),
    Validation(Vec<String>),
}

/// `items` written one after another, separated by `", "`.
pub open spec fn joined(items: Seq<String>) -> Seq<char>
    decreases items.len(),
{
    if items.len() == 0 {
        Seq::empty()
    } else if items.len() == 1 {
        items[0]@
    } else {
        joined(items.drop_last()) + ", "@ + items.last()@
    }
}

fn join_comma(items: &Vec<String>) -> (r: String)
    ensures
        r@ == joined(items@),
{
    let mut acc = String::new();
    let mut i: usize = 0;
    while i < items.len()
        invariant
            0 <= i <= items@.len(),
            acc@ == joined(items@.subrange(0, i as int)),
        decreases items@.len() - i,
    {
        if i > 0 {
            acc.append(", ");
        }
        acc.append(items[i].as_str());
        assert(items@.subrange(0, i + 1).drop_last() == items@.subrange(0, i as int));
        i += 1;
    }
    assert(items@.subrange(0, items@.len() as int) == items@);
    acc
}

/// The HTTP status of an application error.
pub open spec fn app_error_status(e: AppError) -> u16 {
    match e {
        AppError::NotFound(_) => 404,
        AppError::BadRequest(_) => 400,
        AppError::Unauthorized => 401,
        AppError::Forbidden => 403,
        AppError::Conflict(_) => 409,
        AppError::Internal(_) => 500,
        AppError::Validation(_) => 422,
    }
}

/// Whether `r` is a fresh problem with this status and title, whose detail reads `text`.
pub open spec fn has_detail_text(r: ErrorResponse, status: u16, title: Seq<char>, text: Seq<char>) -> bool {
    &&& r.error_type@ == blank_type()
    &&& r.title@ == title
    &&& r.status == status
    &&& r.detail is Some
    &&& r.detail->0@ == text
    &&& r.instance is None
    &&& r.request_id is None
}

/// Whether `r` is the problem body that answers `e`. An internal error
/// keeps its cause out of the answer.
pub open spec fn is_app_problem(e: AppError, r: ErrorResponse) -> bool {
    match e {
        AppError::NotFound(d) => is_detailed_problem(r, 404, "Not Found"@, d),
        AppError::BadRequest(d) => is_detailed_problem(r, 400, "Bad Request"@, d),
        AppError::Unauthorized => is_plain_problem(r, 401, "Unauthorized"@),
        AppError::Forbidden => is_plain_problem(r, 403, "Forbidden"@),
        AppError::Conflict(d) => is_detailed_problem(r, 409, "Conflict"@, d),
        AppError::Internal(_) => is_plain_problem(r, 500, "Internal Server Error"@),
        AppError::Validation(errs) => has_detail_text(r, 422, "Validation Failed"@, joined(errs@)),
    }
}

/// The application error that answers a repository error. Storage faults
/// are reported without their cause.
pub open spec fn is_app_error_for_repo(e: RepoError, r: AppError) -> bool {
    match e {
        RepoError::NotFound => r is NotFound && r->NotFound_0@ == "Resource not found"@,
        RepoError::Constraint(m) => r == AppError::Conflict(m),
        RepoError::Connection(_) => r is Internal && r->Internal_0@ == "Database error"@,
        RepoError::Query(_) => r is Internal && r->Internal_0@ == "Database error"@,
    }
}

impl AppError {
    /// The HTTP status of the error.
    pub fn status_code(&self) -> (r: u16)
        ensures
            r == app_error_status(*self),
    {
        match self {
            AppError::NotFound(_) => 404,
            AppError::BadRequest(_) => 400,
            AppError::Unauthorized => 401,
            AppError::Forbidden => 403,
            AppError::Conflict(_) => 409,
            AppError::Internal(_) => 500,
            AppError::Validation(_) => 422,
        }
    }

    /// The problem body that answers the error; its status is `status_code`.
    pub fn error_response(&self) -> (r: ErrorResponse)
        ensures
            is_app_problem(*self, r),
            r.status == app_error_status(*self),
    {
        match self {
            AppError::NotFound(d) => ErrorResponse::not_found(d.clone()),
            AppError::BadRequest(d) => ErrorResponse::bad_request(d.clone()),
            AppError::Unauthorized => ErrorResponse::unauthorized(),
            AppError::Forbidden => ErrorResponse::forbidden(),
            AppError::Conflict(d) => ErrorResponse::new(409, "Conflict".to_owned()).with_detail(
                d.clone(),
            ),
            AppError::Internal(_) => ErrorResponse::internal_error(),
            AppError::Validation(errs) => ErrorResponse::new(
                422,
                "Validation Failed".to_owned(),
            ).with_detail(join_comma(errs)),
        }
    }

    /// The application error that answers a repository error.
    pub fn from_repo(err: RepoError) -> (r: AppError)
        ensures
            is_app_error_for_repo(err, r),
    {
        match err {
            RepoError::NotFound => AppError::NotFound("Resource not found".to_owned()),
            RepoError::Constraint(m) => AppError::Conflict(m),
            RepoError::Connection(_) => AppError::Internal("Database error".to_owned()),
            RepoError::Query(_) => AppError::Internal("Database error".to_owned()),
        }
    }
}

/// An authentication failure as an HTTP answer.
#[derive(Debug, Clone)]
pub struct AuthenticationError(pub AuthError);

/// The HTTP status of an authentication failure.
pub open spec fn auth_failure_status(e: AuthError) -> u16 {
    match e {
        AuthError::TokenExpired => 401,
        AuthError::InvalidToken(_) => 401,
        AuthError::MissingAuth => 401,
        AuthError::InsufficientPermissions => 403,
        _ => 500,
    }
}

/// Whether `r` is the problem body that answers an authentication failure.
pub open spec fn is_auth_problem(e: AuthError, r: ErrorResponse) -> bool {
    match e {
        AuthError::TokenExpired => has_detail_text(
            r,
            401,
            "Token Expired"@,
            "Your authentication token has expired. Please login again."@,
        ),
        AuthError::InvalidToken(m) => is_detailed_problem(r, 401, "Invalid Token"@, m),
        AuthError::MissingAuth => has_detail_text(
            r,
            401,
            "Authentication Required"@,
            "Please provide a valid Bearer token in the Authorization header."@,
        ),
        AuthError::InsufficientPermissions => is_plain_problem(r, 403, "Forbidden"@),
        _ => is_plain_problem(r, 500, "Internal Server Error"@),
    }
}

impl AuthenticationError {
    /// The HTTP status of the failure.
    pub fn status_code(&self) -> (r: u16)
        ensures
            r == auth_failure_status(self.0),
    {
        match &self.0 {
            AuthError::TokenExpired => 401,
            AuthError::InvalidToken(_) => 401,
            AuthError::MissingAuth => 401,
            AuthError::InsufficientPermissions => 403,
            _ => 500,
        }
    }

    /// The problem body that answers the failure.
    pub fn error_response(&self) -> (r: ErrorResponse)
        ensures
            is_auth_problem(self.0, r),
            r.status == auth_failure_status(self.0),
    {
        match &self.0 {
            AuthError::TokenExpired => ErrorResponse::new(401, "Token Expired".to_owned()).with_detail(
                "Your authentication token has expired. Please login again.".to_owned(),
            ),
            AuthError::InvalidToken(m) => ErrorResponse::new(
                401,
                "Invalid Token".to_owned(),
            ).with_detail(m.clone()),
            AuthError::MissingAuth => ErrorResponse::new(
                401,
                "Authentication Required".to_owned(),
            ).with_detail(
                "Please provide a valid Bearer token in the Authorization header.".to_owned(),
            ),
            AuthError::InsufficientPermissions => ErrorResponse::forbidden(),
            _ => ErrorResponse::internal_error(),
        }
    }

    /// The human-readable text of the failure.
    pub fn message(&self) -> (r: String)
        ensures
            r@ == auth_error_text(self.0),
    {
        self.0.message()
    }
}

/// What a request's `Authorization` header holds.
#[derive(Debug, Clone)]
pub enum AuthorizationHeader {
    /// The request has no such header.
    Missing,
    /// The header is not readable as text.
    Unreadable,
    /// The header's text.
    Text(String),
}

/// The scheme that precedes a token in the `Authorization` header.
pub open spec fn bearer_scheme() -> Seq<char> {
    "Bearer "@
}

/// Whether `r` is what `bearer_token` answers for `header`.
pub open spec fn is_bearer_answer(header: AuthorizationHeader, r: Result<String, AuthError>) -> bool {
    match header {
        AuthorizationHeader::Missing => r is Err && r->Err_0 is MissingAuth,
        AuthorizationHeader::Unreadable => {
            &&& r is Err
            &&& r->Err_0 is InvalidToken
            &&& r->Err_0->InvalidToken_0@ == "Invalid authorization header"@
        },
        AuthorizationHeader::Text(t) => if has_prefix(t@, bearer_scheme()) {
            r is Ok && r->Ok_0@ == t@.subrange(bearer_scheme().len() as int, t@.len() as int)
        } else {
            &&& r is Err
            &&& r->Err_0 is InvalidToken
            &&& r->Err_0->InvalidToken_0@ == "Expected Bearer token"@
        },
    }
}

/// The token a request presents in its `Authorization: Bearer <token>`
/// header, or why there is none.
pub fn bearer_token(header: &AuthorizationHeader) -> (r: Result<String, AuthError>)
    ensures
        is_bearer_answer(*header, r),
{
    match header {
        AuthorizationHeader::Missing => Err(AuthError::MissingAuth),
        AuthorizationHeader::Unreadable => Err(
            AuthError::InvalidToken("Invalid authorization header".to_owned()),
        ),
        AuthorizationHeader::Text(t) => {
            let text = t.as_str();
            if starts_with(text, "Bearer ") {
                proof {
                    reveal_strlit("Bearer ");
                }
                let n = text.unicode_len();
                Ok(text.substring_char(7, n).to_owned())
            } else {
                Err(AuthError::InvalidToken("Expected Bearer token".to_owned()))
            }
        },
    }
}

/// The detail of a rate-limited answer.
pub open spec fn retry_later_text(secs: u64) -> Seq<char> {
    "Rate limit exceeded. Try again in "@ + decimal_text(secs as nat) + " seconds."@
}

/// Whether `r` is how a request is answered after the rate limiter's
/// verdict `check`: refused with 429 when the limiter says no; let through
/// otherwise, also when the limiter itself failed.
pub open spec fn is_rate_limit_answer(
    check: Result<RateLimitResult, RateLimitError>,
    r: Option<ErrorResponse>,
) -> bool {
    match check {
        Ok(res) => if res.allowed {
            r is None
        } else {
            r is Some && has_detail_text(
                r->0,
                429,
                "Too Many Requests"@,
                retry_later_text(res.reset_after_secs),
            )
        },
        Err(_) => r is None,
    }
}

/// The problem body that refuses a request, or `None` to let it through.
pub fn rate_limit_rejection(check: &Result<RateLimitResult, RateLimitError>) -> (r: Option<
    ErrorResponse,
>)
    ensures
        is_rate_limit_answer(*check, r),
{
    match check {
        Ok(res) => {
            if res.allowed {
                None
            } else {
                let detail = "Rate limit exceeded. Try again in ".to_owned().concat(
                    decimal(res.reset_after_secs).as_str(),
                ).concat(" seconds.");
                Some(ErrorResponse::new(429, "Too Many Requests".to_owned()).with_detail(detail))
            }
        },
        Err(_) => None,
    }
}

} // verus!
