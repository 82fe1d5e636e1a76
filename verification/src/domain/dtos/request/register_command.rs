use vstd::prelude::*;
use vstd::utf8::encode_utf8;

use crate::domain::error::app_error::AppError;
use crate::domain::error::field_error::FieldError;
use crate::text::{blank, contains_char, is_blank, white_space};

verus! {

/// A sign-up request.
pub struct RegisterCommand {
    pub name: String,
    pub email: String,
    pub password: String,
}

/// Smallest password length, in UTF-8 bytes.
pub const MIN_PASSWORD_BYTES: usize = 8;

/// The validation failures of a sign-up, in the order name, email, password:
/// a name that trims to nothing, an email without `@`, a password shorter
/// than eight bytes of UTF-8 (its byte length as `str::len` reports it).
pub open spec fn register_errors(name: Seq<char>, email: Seq<char>, password: Seq<char>) -> Seq<
    (Seq<char>, Seq<char>),
> {
    (if blank(name) {
        seq![("name"@, "bo'sh bo'lmasligi kerak"@)]
    } else {
        Seq::empty()
    }) + (if !email.contains('@') {
        seq![("email"@, "noto'g'ri format"@)]
    } else {
        Seq::empty()
    }) + (if (encode_utf8(password).len() as usize) < MIN_PASSWORD_BYTES {
        seq![("password"@, "kamida 8 ta belgi"@)]
    } else {
        Seq::empty()
    })
}

/// Some entry of `errs` is about `field`.
pub open spec fn reports(errs: Seq<(Seq<char>, Seq<char>)>, field: Seq<char>) -> bool {
    exists|i: int| 0 <= i < errs.len() && #[trigger] errs[i].0 == field
}

/// Each field is reported exactly when it breaks its rule: the name when it
/// has no character but white space (so "Ali Valiyev" is a fine name), the
/// email when it has no `@`, the password when it is under eight bytes of
/// UTF-8. Each field is reported at most once, with its own message, the name
/// first and the password last.
pub proof fn sign_up_errors_follow_the_fields(name: Seq<char>, email: Seq<char>, password: Seq<char>)
    requires
        encode_utf8(password).len() <= usize::MAX,
    ensures
        ({
            let errs = register_errors(name, email, password);
            &&& reports(errs, "name"@) <==> !(exists|j: int| 0 <= j < name.len() && !white_space(#[trigger] name[j]))
            &&& reports(errs, "email"@) <==> !(exists|j: int| 0 <= j < email.len() && #[trigger] email[j] == '@')
            &&& reports(errs, "password"@) <==> encode_utf8(password).len() < 8
            &&& forall|i: int|
                0 <= i < errs.len() ==> {
                    ||| errs[i] == ("name"@, "bo'sh bo'lmasligi kerak"@)
                    ||| errs[i] == ("email"@, "noto'g'ri format"@)
                    ||| errs[i] == ("password"@, "kamida 8 ta belgi"@)
                }
            &&& forall|i: int, k: int| 0 <= i < k < errs.len() ==> errs[i].0 != errs[k].0
            &&& reports(errs, "name"@) ==> errs[0].0 == "name"@
            &&& reports(errs, "password"@) ==> errs[errs.len() - 1].0 == "password"@
        }),
{
    reveal_strlit("name");
    reveal_strlit("email");
    reveal_strlit("password");
    let errs = register_errors(name, email, password);
    assert("name"@.len() == 4 && "email"@.len() == 5 && "password"@.len() == 8);
    let np = if blank(name) { seq![("name"@, "bo'sh bo'lmasligi kerak"@)] } else { Seq::empty() };
    let ep = if !email.contains('@') { seq![("email"@, "noto'g'ri format"@)] } else { Seq::empty() };
    let pp = if (encode_utf8(password).len() as usize) < MIN_PASSWORD_BYTES {
        seq![("password"@, "kamida 8 ta belgi"@)]
    } else {
        Seq::empty()
    };
    assert(errs == np + ep + pp);
    if blank(name) {
        assert(errs[0].0 == "name"@);
    }
    if !blank(name) {
        let j = choose|j: int| 0 <= j < name.len() && !white_space(name[j]);
        assert(!white_space(name[j]));
    }
    if (exists|j: int| 0 <= j < name.len() && !white_space(#[trigger] name[j])) {
        let j = choose|j: int| 0 <= j < name.len() && !white_space(#[trigger] name[j]);
        assert(!blank(name));
    }
    if pp.len() > 0 {
        assert(errs[errs.len() - 1] == pp[0]);
    }
    assert(np.len() <= 1 && ep.len() <= 1 && pp.len() <= 1);
    assert forall|i: int| 0 <= i < errs.len() implies {
        ||| errs[i] == ("name"@, "bo'sh bo'lmasligi kerak"@) && i == 0 && np.len() == 1
        ||| errs[i] == ("email"@, "noto'g'ri format"@) && i == np.len() && ep.len() == 1
        ||| errs[i] == ("password"@, "kamida 8 ta belgi"@) && i == np.len() + ep.len() && pp.len() == 1
    } by {
        if i < np.len() {
            assert(errs[i] == np[i]);
        } else if i < np.len() + ep.len() {
            assert(errs[i] == ep[i - np.len()]);
        } else {
            assert(errs[i] == pp[i - np.len() - ep.len()]);
        }
    }
    assert(reports(errs, "name"@) <==> np.len() == 1) by {
        if np.len() == 1 {
            assert(errs[0].0 == "name"@);
        }
    }
    assert(reports(errs, "email"@) <==> ep.len() == 1) by {
        if ep.len() == 1 {
            assert(errs[np.len() as int].0 == "email"@);
        }
    }
    assert(reports(errs, "password"@) <==> pp.len() == 1) by {
        if pp.len() == 1 {
            assert(errs[(np.len() + ep.len()) as int].0 == "password"@);
        }
    }
    assert(email.contains('@') <==> (exists|j: int| 0 <= j < email.len() && #[trigger] email[j] == '@'));
}

impl RegisterCommand {
    /// Checks the fields; all failures are reported together.
    pub fn validate(&self) -> (r: Result<(), AppError>)
        ensures
            r is Ok <==> register_errors(self.name@, self.email@, self.password@).len() == 0,
            r is Err ==> (r matches Err(AppError::Validation(errs)) && errs@.map_values(
                |f: FieldError| f@,
            ) == register_errors(self.name@, self.email@, self.password@)),
    {
        let mut errors: Vec<FieldError> = Vec::new();
        let ghost name_part = if blank(self.name@) {
            seq![("name"@, "bo'sh bo'lmasligi kerak"@)]
        } else {
            Seq::<(Seq<char>, Seq<char>)>::empty()
        };
        let ghost email_part = if !self.email@.contains('@') {
            seq![("email"@, "noto'g'ri format"@)]
        } else {
            Seq::<(Seq<char>, Seq<char>)>::empty()
        };
        if is_blank(self.name.as_str()) {
            errors.push(FieldError { field: "name", message: "bo'sh bo'lmasligi kerak".to_owned() });
        }
        assert(errors@.map_values(|f: FieldError| f@) =~= name_part);
        if !contains_char(self.email.as_str(), '@') {
            errors.push(FieldError { field: "email", message: "noto'g'ri format".to_owned() });
        }
        assert(errors@.map_values(|f: FieldError| f@) =~= name_part + email_part);
        if self.password.as_str().len() < MIN_PASSWORD_BYTES {
            errors.push(FieldError { field: "password", message: "kamida 8 ta belgi".to_owned() });
        }
        assert(errors@.map_values(|f: FieldError| f@) =~= register_errors(
            self.name@,
            self.email@,
            self.password@,
        ));
        if errors.len() == 0 {
            Ok(())
        } else {
            Err(AppError::Validation(errors))
        }
    }
}

} // verus!
