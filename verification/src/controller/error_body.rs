use vstd::prelude::*;

use crate::domain::error::app_error::{error_message, error_status, AppError};
use crate::domain::error::field_error::FieldError;

verus! {

/// The one shape of an error answer: the status, the text shown to the
/// client, and the per-field validation failures (empty for other errors).
pub struct ErrorBody {
    pub status: u16,
    pub message: String,
    pub errors: Vec<FieldError>,
}

/// The text an error answer shows: the error's own text, except that an
/// internal error only says `ichki xato` (its detail goes to the log).
pub open spec fn public_message(e: AppError) -> Seq<char> {
    match e {
        AppError::Internal(_) => "ichki xato"@,
        _ => error_message(e),
    }
}

/// The answer to an error, as described in the `AppError` variants.
pub fn error_body(err: AppError) -> (r: ErrorBody)
    ensures
        r.status == error_status(err),
        r.message@ == public_message(err),
        err matches AppError::Validation(errs) ==> r.errors@ == errs@,
        !(err is Validation) ==> r.errors@.len() == 0,
{
    let status = err.status_code();
    let message = match err {
        AppError::Internal(_) => "ichki xato".to_owned(),
        _ => err.message(),
    };
    let errors = match err {
        AppError::Validation(errs) => errs,
        _ => Vec::new(),
    };
    ErrorBody { status, message, errors }
}

/// The detail of an internal error never reaches the client: two internal
/// errors are answered alike, whatever they say.
pub proof fn internal_detail_is_hidden(a: String, b: String)
    ensures
        public_message(AppError::Internal(a)) == public_message(AppError::Internal(b)),
        error_status(AppError::Internal(a)) == error_status(AppError::Internal(b)),
{
}

} // verus!
