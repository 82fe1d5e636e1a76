use vstd::prelude::*;
use vstd::string::StringExecFns;

use super::field_error::FieldError;

verus! {

/// The one error type of the domain.
#[derive(Debug)]
pub enum AppError {
    /// 404: the entity does not exist.
    NotFound { entity: &'static str },
    /// 409: a unique field is already taken.
    AlreadyExists { entity: &'static str, field: &'static str },
    /// 401: authentication is required.
    Unauthorized,
    /// 403: the caller may not do this.
    Forbidden,
    /// 400: the request failed validation.
    Validation(Vec<FieldError>),
    /// 503: a dependency is unavailable.
    ServiceUnavailable(String),
    /// 500: an internal failure.
    Internal(String),
}

/// `field: message` for one validation failure.
pub open spec fn field_error_text(e: (Seq<char>, Seq<char>)) -> Seq<char> {
    e.0 + ": "@ + e.1
}

/// The failures, each as `field: message`, joined by `"; "`.
pub open spec fn join_field_errors(errs: Seq<(Seq<char>, Seq<char>)>) -> Seq<char>
    decreases errs.len(),
{
    if errs.len() == 0 {
        Seq::empty()
    } else if errs.len() == 1 {
        field_error_text(errs[0])
    } else {
        join_field_errors(errs.drop_last()) + "; "@ + field_error_text(errs.last())
    }
}

/// The human-readable text of an error.
pub open spec fn error_message(e: AppError) -> Seq<char> {
    match e {
        AppError::NotFound { entity } => entity@ + " topilmadi"@,
        AppError::AlreadyExists { entity, field } => entity@ + ": "@ + field@ + " allaqachon mavjud"@,
        AppError::Unauthorized => "autentifikatsiya talab qilinadi"@,
        AppError::Forbidden => "ruxsat yo'q"@,
        AppError::Validation(errors) => "validatsiya xatolari: "@ + join_field_errors(
            errors@.map_values(|f: FieldError| f@),
        ),
        AppError::ServiceUnavailable(msg) => "xizmat mavjud emas: "@ + msg@,
        AppError::Internal(msg) => "ichki xato: "@ + msg@,
    }
}

/// The HTTP status that stands for an error.
pub open spec fn error_status(e: AppError) -> u16 {
    match e {
        AppError::NotFound { .. } => 404,
        AppError::AlreadyExists { .. } => 409,
        AppError::Unauthorized => 401,
        AppError::Forbidden => 403,
        AppError::Validation(_) => 400,
        AppError::ServiceUnavailable(_) => 503,
        AppError::Internal(_) => 500,
    }
}

/// Joins the validation failures as `field: message; field: message`.
fn join_errors(errors: &Vec<FieldError>) -> (r: String)
    ensures
        r@ == join_field_errors(errors@.map_values(|f: FieldError| f@)),
{
    let ghost all = errors@.map_values(|f: FieldError| f@);
    let mut out = String::new();
    let mut i: usize = 0;
    while i < errors.len()
        invariant
            i <= errors@.len(),
            all == errors@.map_values(|f: FieldError| f@),
            out@ == join_field_errors(all.take(i as int)),
        decreases errors@.len() - i,
    {
        let e = &errors[i];
        if i > 0 {
            out.append("; ");
        }
        out.append(e.field);
        out.append(": ");
        out.append(e.message.as_str());
        proof {
            assert(all.take(i + 1).drop_last() =~= all.take(i as int));
            assert(all.take(i + 1).last() == all[i as int]);
            if i == 0 {
                assert(out@ =~= field_error_text(all[0]));
            } else {
                assert(out@ =~= join_field_errors(all.take(i as int)) + "; "@ + field_error_text(all[i as int]));
            }
        }
        i = i + 1;
    }
    assert(all.take(errors@.len() as int) =~= all);
    out
}

impl AppError {
    /// The text of the error, as shown to people.
    pub fn message(&self) -> (r: String)
        ensures
            r@ == error_message(*self),
    {
        match self {
            AppError::NotFound { entity } => {
                let mut s = (*entity).to_owned();
                s.append(" topilmadi");
                s
            },
            AppError::AlreadyExists { entity, field } => {
                let mut s = (*entity).to_owned();
                s.append(": ");
                s.append(*field);
                s.append(" allaqachon mavjud");
                s
            },
            AppError::Unauthorized => "autentifikatsiya talab qilinadi".to_owned(),
            AppError::Forbidden => "ruxsat yo'q".to_owned(),
            AppError::Validation(errors) => {
                let mut s = "validatsiya xatolari: ".to_owned();
                let joined = join_errors(errors);
                s.append(joined.as_str());
                s
            },
            AppError::ServiceUnavailable(msg) => {
                let mut s = "xizmat mavjud emas: ".to_owned();
                s.append(msg.as_str());
                s
            },
            AppError::Internal(msg) => {
                let mut s = "ichki xato: ".to_owned();
                s.append(msg.as_str());
                s
            },
        }
    }

    /// The HTTP status code of the error.
    pub fn status_code(&self) -> (r: u16)
        ensures
            r == error_status(*self),
    {
        match self {
            AppError::NotFound { .. } => 404,
            AppError::AlreadyExists { .. } => 409,
            AppError::Unauthorized => 401,
            AppError::Forbidden => 403,
            AppError::Validation(_) => 400,
            AppError::ServiceUnavailable(_) => 503,
            AppError::Internal(_) => 500,
        }
    }
}

} // verus!
