use vstd::prelude::*;

verus! {

/// Envelope of a successful API answer.
#[derive(Debug, Clone)]
pub struct ApiResponse<T> {
    pub success: bool,
    pub data: Option<T>,
    pub message: Option<String>,
}

impl<T> ApiResponse<T> {
    /// A successful answer carrying `data`.
    pub fn ok(data: T) -> (r: ApiResponse<T>)
        ensures
            r.success,
            r.data == Some(data),
            r.message is None,
    {
        ApiResponse { success: true, data: Some(data), message: None }
    }

    /// A successful answer carrying `data` and a message.
    pub fn ok_with_message(data: T, message: String) -> (r: ApiResponse<T>)
        ensures
            r.success,
            r.data == Some(data),
            r.message == Some(message),
    {
        ApiResponse { success: true, data: Some(data), message: Some(message) }
    }
}

/// Problem details of a failed API call (RFC 7807).
#[derive(Debug, Clone)]
pub struct ErrorResponse {
    /// A URI reference naming the problem type.
    pub error_type: String,
    /// A short summary of the problem type.
    pub title: String,
    /// The HTTP status code.
    pub status: u16,
    /// An explanation of this occurrence.
    pub detail: Option<String>,
    /// A URI reference naming this occurrence.
    pub instance: Option<String>,
    /// The identifier of the request, for debugging.
    pub request_id: Option<String>,
}

/// The problem type of every response built here.
pub open spec fn blank_type() -> Seq<char> {
    "about:blank"@
}

/// Whether `r` is a fresh problem with this status and title, without detail.
pub open spec fn is_plain_problem(r: ErrorResponse, status: u16, title: Seq<char>) -> bool {
    &&& r.error_type@ == blank_type()
    &&& r.title@ == title
    &&& r.status == status
    &&& r.detail is None
    &&& r.instance is None
    &&& r.request_id is None
}

/// Whether `r` is a fresh problem with this status, title and detail.
pub open spec fn is_detailed_problem(
    r: ErrorResponse,
    status: u16,
    title: Seq<char>,
    detail: String,
) -> bool {
    &&& r.error_type@ == blank_type()
    &&& r.title@ == title
    &&& r.status == status
    &&& r.detail == Some(detail)
    &&& r.instance is None
    &&& r.request_id is None
}

impl ErrorResponse {
    /// A problem with this status and title and no detail.
    pub fn new(status: u16, title: String) -> (r: ErrorResponse)
        ensures
            is_plain_problem(r, status, title@),
            r.title == title,
    {
        ErrorResponse {
            error_type: "about:blank".to_owned(),
            title,
            status,
            detail: None,
            instance: None,
            request_id: None,
        }
    }

    /// The same problem with this detail.
    pub fn with_detail(self, detail: String) -> (r: ErrorResponse)
        ensures
            r == (ErrorResponse { detail: Some(detail), ..self }),
    {
        let mut e = self;
        e.detail = Some(detail);
        e
    }

    /// The same problem with this request identifier.
    pub fn with_request_id(self, request_id: String) -> (r: ErrorResponse)
        ensures
            r == (ErrorResponse { request_id: Some(request_id), ..self }),
    {
        let mut e = self;
        e.request_id = Some(request_id);
        e
    }

    /// 400 Bad Request, with this detail.
    pub fn bad_request(detail: String) -> (r: ErrorResponse)
        ensures
            is_detailed_problem(r, 400, "Bad Request"@, detail),
    {
        ErrorResponse::new(400, "Bad Request".to_owned()).with_detail(detail)
    }

    /// 401 Unauthorized.
    pub fn unauthorized() -> (r: ErrorResponse)
        ensures
            is_plain_problem(r, 401, "Unauthorized"@),
    {
        ErrorResponse::new(401, "Unauthorized".to_owned())
    }

    /// 403 Forbidden.
    pub fn forbidden() -> (r: ErrorResponse)
        ensures
            is_plain_problem(r, 403, "Forbidden"@),
    {
        ErrorResponse::new(403, "Forbidden".to_owned())
    }

    /// 404 Not Found, with this detail.
    pub fn not_found(detail: String) -> (r: ErrorResponse)
        ensures
            is_detailed_problem(r, 404, "Not Found"@, detail),
    {
        ErrorResponse::new(404, "Not Found".to_owned()).with_detail(detail)
    }

    /// 500 Internal Server Error.
    pub fn internal_error() -> (r: ErrorResponse)
        ensures
            is_plain_problem(r, 500, "Internal Server Error"@),
    {
        ErrorResponse::new(500, "Internal Server Error".to_owned())
    }
}

} // verus!
