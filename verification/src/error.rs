use vstd::prelude::*;

verus! {

/// The caller-visible failure taxonomy: every domain failure is one of these
/// codes, and the HTTP status of a response is derived from the code alone.
#[derive(Clone, Copy, Debug, PartialEq, Eq, Structural)]
pub enum ErrorCode {
    Unknown,
    Forbidden,
    ForbiddenSelfEdit,
    BadAuth,
    NotFound,
    NotUnique,
    ServerError,
    DatabaseError,
    RateLimited,
    IndexOutOfBounds,
    SendFailed,
    FileTooBig,
}

impl Default for ErrorCode {
    fn default() -> (r: Self)
        ensures
            r == ErrorCode::Unknown,
    {
        ErrorCode::Unknown
    }
}

impl ErrorCode {
    /// The HTTP status that each code maps to.
    pub open spec fn spec_status(self) -> u16 {
        match self {
            ErrorCode::NotUnique => 400,
            ErrorCode::FileTooBig => 400,
            ErrorCode::IndexOutOfBounds => 400,
            ErrorCode::NotFound => 404,
            ErrorCode::Forbidden | ErrorCode::BadAuth | ErrorCode::ForbiddenSelfEdit => 403,
            ErrorCode::RateLimited => 429,
            ErrorCode::SendFailed => 500,
            ErrorCode::Unknown => 500,
            ErrorCode::ServerError | ErrorCode::DatabaseError => 500,
        }
    }

    pub fn status(&self) -> (s: u16)
        ensures
            s == self.spec_status(),
    {
        match self {
            ErrorCode::NotUnique => 400,
            ErrorCode::FileTooBig => 400,
            ErrorCode::IndexOutOfBounds => 400,
            ErrorCode::NotFound => 404,
            ErrorCode::Forbidden | ErrorCode::BadAuth | ErrorCode::ForbiddenSelfEdit => 403,
            ErrorCode::RateLimited => 429,
            ErrorCode::SendFailed => 500,
            ErrorCode::Unknown => 500,
            ErrorCode::ServerError | ErrorCode::DatabaseError => 500,
        }
    }
}

/// The single error value that all handlers return: an HTTP status, a
/// machine-readable code, and an optional operator-facing debug tag.
#[derive(Debug, Clone)]
pub struct AppErr {
    pub status: u16,
    pub code: ErrorCode,
    pub debug: Option<String>,
}

impl AppErr {
    /// Well-formed errors carry exactly the status their code maps to.
    pub open spec fn wf(self) -> bool {
        self.status == self.code.spec_status()
    }

    pub fn server_error() -> (r: Self)
        ensures
            r.status == 500,
            r.code == ErrorCode::ServerError,
            r.debug is None,
            r.wf(),
    {
        AppErr { status: 500, code: ErrorCode::ServerError, debug: None }
    }

    /// Attaches a debug tag, leaving status and code as they were.
    pub fn debug(self, debug: &str) -> (r: Self)
        ensures
            r.status == self.status,
            r.code == self.code,
            r.debug matches Some(d) && d@ == debug@,
    {
        AppErr { status: self.status, code: self.code, debug: Some(debug.to_owned()) }
    }
}

impl From<ErrorCode> for AppErr {
    fn from(value: ErrorCode) -> (r: Self) {
        AppErr { status: value.status(), code: value, debug: None }
    }
}

impl vstd::std_specs::convert::FromSpecImpl<ErrorCode> for AppErr {
    open spec fn obeys_from_spec() -> bool {
        true
    }

    open spec fn from_spec(t: ErrorCode) -> Self {
        AppErr { status: t.spec_status(), code: t, debug: None }
    }
}

} // verus!
