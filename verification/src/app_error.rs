use vstd::prelude::*;

verus! {

/// Spec-level image of [`AppError`]: string payloads as character sequences.
#[verifier::ext_equal]
pub enum AppErrorView {
    Validation { field: Seq<char>, msg: Seq<char> },
    Internal { msg: Seq<char> },
    Cache,
    InvalidUser,
    InvalidToken,
}

/// Error taxonomy of the core: input-policy violations, failed logins,
/// failed token checks, cache-consistency faults and opaque internal errors.
#[derive(Debug)]
#[allow(inconsistent_fields)]
pub enum AppError {
    ValidationError { field: &'static str, msg: &'static str },
    InternalError { msg: String },
    CacheError,
    InvalidUser,
    InvalidToken,
}

impl View for AppError {
    type V = AppErrorView;

    open spec fn view(&self) -> AppErrorView {
        match self {
            AppError::ValidationError { field, msg } => AppErrorView::Validation {
                field: field@,
                msg: msg@,
            },
            AppError::InternalError { msg } => AppErrorView::Internal { msg: msg@ },
            AppError::CacheError => AppErrorView::Cache,
            AppError::InvalidUser => AppErrorView::InvalidUser,
            AppError::InvalidToken => AppErrorView::InvalidToken,
        }
    }
}

/// HTTP status code that the handler layer answers with for each error kind.
pub open spec fn spec_status_code(e: AppErrorView) -> u16 {
    match e {
        AppErrorView::Validation { .. } => 400u16,
        AppErrorView::InvalidToken | AppErrorView::InvalidUser => 401u16,
        _ => 500u16,
    }
}

impl AppError {
    pub fn status_code(&self) -> (code: u16)
        ensures
            code == spec_status_code(self@),
    {
        match self {
            AppError::ValidationError { .. } => 400,
            AppError::InvalidToken | AppError::InvalidUser => 401,
            _ => 500,
        }
    }
}

} // verus!
