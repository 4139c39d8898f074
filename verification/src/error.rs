//! The application's error type and how each error is answered over HTTP.

use vstd::prelude::*;

verus! {

/// Unified error type for the entire application.
/// Every error maps to a stable machine code + human message + HTTP status.
#[derive(Debug)]
pub enum AppError {
    /// 400 — malformed request body or missing fields
    BadRequest(String),
    /// 401 — authentication / ceremony failure (uniform, no enumeration)
    Unauthorized,
    /// 404 — route not found (not used for missing users — that's Unauthorized)
    NotFound(String),
    /// 409 — credential already registered
    Conflict(String),
    /// 410 — ceremony expired or already consumed
    CeremonyGone,
    /// 500 — unexpected internal error
    Internal(String),
}

/// What the client is sent for an error: HTTP status, machine code, message.
pub struct ErrorReply {
    pub status: u16,
    pub code: String,
    pub message: String,
}

/// The HTTP status of each error.
pub open spec fn status_of(e: AppError) -> u16 {
    match e {
        AppError::BadRequest(_) => 400,
        AppError::Unauthorized => 401,
        AppError::NotFound(_) => 404,
        AppError::Conflict(_) => 409,
        AppError::CeremonyGone => 410,
        AppError::Internal(_) => 500,
    }
}

/// The machine-readable code of each error.
pub open spec fn code_of(e: AppError) -> Seq<char> {
    match e {
        AppError::BadRequest(_) => "BAD_REQUEST"@,
        AppError::Unauthorized => "UNAUTHORIZED"@,
        AppError::NotFound(_) => "NOT_FOUND"@,
        AppError::Conflict(_) => "CONFLICT"@,
        AppError::CeremonyGone => "CEREMONY_EXPIRED"@,
        AppError::Internal(_) => "INTERNAL_ERROR"@,
    }
}

/// The message the client is shown: the error's own text for client errors,
/// a fixed text for authentication failures, spent ceremonies and internal
/// errors (whose details stay on the server).
pub open spec fn client_message_of(e: AppError) -> Seq<char> {
    match e {
        AppError::BadRequest(m) => m@,
        AppError::Unauthorized => "Authentication failed."@,
        AppError::NotFound(m) => m@,
        AppError::Conflict(m) => m@,
        AppError::CeremonyGone => "Ceremony expired or already used."@,
        AppError::Internal(_) => "An unexpected error occurred."@,
    }
}

/// The text of an error as the server describes it (its `Display` form).
pub open spec fn description_of(e: AppError) -> Seq<char> {
    match e {
        AppError::BadRequest(m) => "Bad request: "@ + m@,
        AppError::Unauthorized => "Authentication failed"@,
        AppError::NotFound(m) => "Not found: "@ + m@,
        AppError::Conflict(m) => "Conflict: "@ + m@,
        AppError::CeremonyGone => "Ceremony expired or already used"@,
        AppError::Internal(m) => "Internal error: "@ + m@,
    }
}

/// Whether `e` is an internal error whose detail is `context: ` followed by
/// some description of the failure.
pub open spec fn is_internal_with(e: AppError, context: Seq<char>) -> bool {
    &&& e is Internal
    &&& exists|d: Seq<char>| #[trigger] (context + ": "@ + d) == e->Internal_0@
}

/// `prefix` followed by `rest`, as a new string.
pub(crate) fn concat_str(prefix: &str, rest: &str) -> (r: String)
    ensures
        r@ == prefix@ + rest@,
{
    let mut s = String::from_str(prefix);
    s.append(rest);
    s
}

impl AppError {
    /// The server-side description of the error (what `Display` prints).
    pub fn describe(&self) -> (r: String)
        ensures
            r@ == description_of(*self),
    {
        match self {
            AppError::BadRequest(msg) => concat_str("Bad request: ", msg.as_str()),
            AppError::Unauthorized => String::from_str("Authentication failed"),
            AppError::NotFound(msg) => concat_str("Not found: ", msg.as_str()),
            AppError::Conflict(msg) => concat_str("Conflict: ", msg.as_str()),
            AppError::CeremonyGone => String::from_str("Ceremony expired or already used"),
            AppError::Internal(msg) => concat_str("Internal error: ", msg.as_str()),
        }
    }

    /// The status, code and message the client receives for this error.
    pub fn into_reply(self) -> (r: ErrorReply)
        ensures
            r.status == status_of(self),
            r.code@ == code_of(self),
            r.message@ == client_message_of(self),
    {
        match self {
            AppError::BadRequest(msg) => ErrorReply {
                status: 400,
                code: String::from_str("BAD_REQUEST"),
                message: msg,
            },
            AppError::Unauthorized => ErrorReply {
                status: 401,
                code: String::from_str("UNAUTHORIZED"),
                message: String::from_str("Authentication failed."),
            },
            AppError::NotFound(msg) => ErrorReply {
                status: 404,
                code: String::from_str("NOT_FOUND"),
                message: msg,
            },
            AppError::Conflict(msg) => ErrorReply {
                status: 409,
                code: String::from_str("CONFLICT"),
                message: msg,
            },
            AppError::CeremonyGone => ErrorReply {
                status: 410,
                code: String::from_str("CEREMONY_EXPIRED"),
                message: String::from_str("Ceremony expired or already used."),
            },
            AppError::Internal(_) => ErrorReply {
                status: 500,
                code: String::from_str("INTERNAL_ERROR"),
                message: String::from_str("An unexpected error occurred."),
            },
        }
    }

    /// An internal error whose detail is `context: detail`.
    pub fn internal(context: &str, detail: &str) -> (r: AppError)
        ensures
            r matches AppError::Internal(m) && m@ == context@ + ": "@ + detail@,
            is_internal_with(r, context@),
    {
        let mut s = String::from_str(context);
        s.append(": ");
        s.append(detail);
        assert((context@ + ": "@ + detail@) == s@);
        AppError::Internal(s)
    }

    /// The error for a failed database operation, given the database's own
    /// description of the failure.
    pub fn database(detail: &str) -> (r: AppError)
        ensures
            r matches AppError::Internal(m) && m@ == "Database error: "@ + detail@,
    {
        AppError::Internal(concat_str("Database error: ", detail))
    }

    /// The error for a request body that is not the JSON expected, given the
    /// parser's description of the failure.
    pub fn json(detail: &str) -> (r: AppError)
        ensures
            r matches AppError::BadRequest(m) && m@ == "JSON error: "@ + detail@,
    {
        AppError::BadRequest(concat_str("JSON error: ", detail))
    }
}

/// Internal errors never reach the client: two internal errors, whatever
/// their details, are answered identically.
pub proof fn lemma_internal_details_stay_on_server(a: String, b: String)
    ensures
        status_of(AppError::Internal(a)) == status_of(AppError::Internal(b)),
        code_of(AppError::Internal(a)) == code_of(AppError::Internal(b)),
        client_message_of(AppError::Internal(a)) == client_message_of(AppError::Internal(b)),
{
}

/// Each status identifies the kind of error: distinct kinds are answered
/// with distinct statuses.
pub proof fn lemma_status_identifies_kind(a: AppError, b: AppError)
    requires
        status_of(a) == status_of(b),
    ensures
        a is BadRequest <==> b is BadRequest,
        a is Unauthorized <==> b is Unauthorized,
        a is NotFound <==> b is NotFound,
        a is Conflict <==> b is Conflict,
        a is CeremonyGone <==> b is CeremonyGone,
        a is Internal <==> b is Internal,
{
}

} // verus!
