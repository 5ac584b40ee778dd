//! What a caller is told when a request is not served.
use vstd::prelude::*;

verus! {

/// The sorts of refusal.
#[derive(Debug, Clone, Copy, PartialEq, Eq, Structural)]
pub enum ErrorKind {
    BadRequest,
    Unauthorized,
    Forbidden,
    NotFound,
    Conflict,
    /// A fault whose text is kept from the caller.
    Internal,
    /// A fault whose text the caller may read.
    PublicInternal,
}

impl ErrorKind {
    /// The HTTP status under which the refusal is sent.
    pub open spec fn code(self) -> u16 {
        match self {
            ErrorKind::BadRequest => 400,
            ErrorKind::Unauthorized => 401,
            ErrorKind::Forbidden => 403,
            ErrorKind::NotFound => 404,
            ErrorKind::Conflict => 409,
            ErrorKind::Internal => 500,
            ErrorKind::PublicInternal => 500,
        }
    }

    pub fn status_code(&self) -> (r: u16)
        ensures
            r == self.code(),
    {
        match self {
            ErrorKind::BadRequest => 400,
            ErrorKind::Unauthorized => 401,
            ErrorKind::Forbidden => 403,
            ErrorKind::NotFound => 404,
            ErrorKind::Conflict => 409,
            ErrorKind::Internal => 500,
            ErrorKind::PublicInternal => 500,
        }
    }
}

/// A refusal, with the text that says why.
#[derive(Debug)]
pub struct AppError {
    pub kind: ErrorKind,
    pub message: String,
}

/// What a refusal says: its sort and its text.
pub type Refusal = (ErrorKind, Seq<char>);

impl AppError {
    pub open spec fn view(&self) -> Refusal {
        (self.kind, self.message@)
    }

    pub fn new(kind: ErrorKind, message: &str) -> (r: AppError)
        ensures
            r@ == (kind, message@),
    {
        AppError { kind, message: message.to_owned() }
    }

    pub fn bad_request(message: &str) -> (r: AppError)
        ensures
            r@ == (ErrorKind::BadRequest, message@),
    {
        AppError::new(ErrorKind::BadRequest, message)
    }

    pub fn unauthorized(message: &str) -> (r: AppError)
        ensures
            r@ == (ErrorKind::Unauthorized, message@),
    {
        AppError::new(ErrorKind::Unauthorized, message)
    }

    pub fn forbidden(message: &str) -> (r: AppError)
        ensures
            r@ == (ErrorKind::Forbidden, message@),
    {
        AppError::new(ErrorKind::Forbidden, message)
    }

    pub fn not_found(message: &str) -> (r: AppError)
        ensures
            r@ == (ErrorKind::NotFound, message@),
    {
        AppError::new(ErrorKind::NotFound, message)
    }

    pub fn conflict(message: &str) -> (r: AppError)
        ensures
            r@ == (ErrorKind::Conflict, message@),
    {
        AppError::new(ErrorKind::Conflict, message)
    }

    pub fn internal(message: &str) -> (r: AppError)
        ensures
            r@ == (ErrorKind::Internal, message@),
    {
        AppError::new(ErrorKind::Internal, message)
    }

    pub fn public_internal(message: &str) -> (r: AppError)
        ensures
            r@ == (ErrorKind::PublicInternal, message@),
    {
        AppError::new(ErrorKind::PublicInternal, message)
    }
}

/// What a result tells: the refusal, if it is one.
pub open spec fn refusal_of<T>(r: Result<T, AppError>) -> Option<Refusal> {
    match r {
        Ok(_) => None,
        Err(e) => Some(e@),
    }
}

/// Refusals are told apart by their status: a bad request, a visitor who is not known, one who
/// may not, what is not there, what has changed meanwhile, and a fault of the service.
pub proof fn law_refusals_have_their_status(
    m: &str,
    bad: AppError,
    unknown: AppError,
    forbidden: AppError,
    missing: AppError,
    changed: AppError,
    fault: AppError,
    told: AppError,
)
    requires
        call_ensures(AppError::bad_request, (m,), bad),
        call_ensures(AppError::unauthorized, (m,), unknown),
        call_ensures(AppError::forbidden, (m,), forbidden),
        call_ensures(AppError::not_found, (m,), missing),
        call_ensures(AppError::conflict, (m,), changed),
        call_ensures(AppError::internal, (m,), fault),
        call_ensures(AppError::public_internal, (m,), told),
    ensures
        bad.kind.code() == 400 && bad.message@ == m@,
        unknown.kind.code() == 401 && unknown.message@ == m@,
        forbidden.kind.code() == 403 && forbidden.message@ == m@,
        missing.kind.code() == 404 && missing.message@ == m@,
        changed.kind.code() == 409 && changed.message@ == m@,
        fault.kind.code() == 500 && told.kind.code() == 500,
        fault.kind is Internal && told.kind is PublicInternal,
        told.message@ == m@,
{
}

}
