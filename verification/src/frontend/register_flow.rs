//! The two steps of signing up on the web front end: the form, then the code
//! sent by email. The screen waits on the back end between steps; what each
//! event does to the screen, and what the front end does next, is decided
//! here.
use vstd::prelude::*;

use crate::frontend::auth::AuthTokens;
use crate::frontend::code_entry::{check_password_repeat, code_from_slots, joined, CODE_LEN};

verus! {

/// Which step of signing up is on the screen.
#[derive(Debug, Clone, Copy, PartialEq, Eq, Structural)]
pub enum Step {
    /// The details form.
    Form,
    /// The confirmation code boxes.
    Verify,
}

/// What the sign-up screen shows besides its fields.
#[derive(Debug, Clone)]
pub struct RegisterScreen {
    pub step: Step,
    /// A request is on its way; the submit button is disabled.
    pub loading: bool,
    /// The error message shown, if any.
    pub error: Option<String>,
    /// The notice shown, if any.
    pub notice: Option<String>,
}

/// What happened on the sign-up screen.
#[derive(Debug)]
pub enum RegisterEvent {
    /// The details form was submitted with these two password fields.
    SubmitForm { password: String, repeat: String },
    /// The back end answered the registration.
    Registered(Result<(), String>),
    /// The code form was submitted with these boxes.
    SubmitCode(Vec<String>),
    /// The back end answered the code.
    Verified(Result<AuthTokens, String>),
    /// A new code was asked for.
    Resend,
    /// The back end answered the request for a new code.
    Resent(Result<(), String>),
    /// The user went back to use another email.
    OtherEmail,
}

/// What the front end does next.
#[derive(Debug, Clone)]
pub enum RegisterAction {
    /// Nothing beyond showing the new screen.
    Nothing,
    /// Send the registration request made of the form's details.
    SendRegistration,
    /// Send this code with the email for confirmation.
    SendCode(String),
    /// Keep these tokens and go to the home page.
    SignIn(AuthTokens),
    /// Ask the back end to send a new code.
    SendResend,
}

/// A fresh screen at `step`: nothing on its way, no message.
pub open spec fn fresh(s: RegisterScreen, step: Step) -> bool {
    s.step == step && !s.loading && s.error is None && s.notice is None
}

/// `s` shows the error `m` and is otherwise `old`.
pub open spec fn with_error(s: RegisterScreen, old: RegisterScreen, m: Seq<char>) -> bool {
    &&& s.step == old.step
    &&& s.notice == old.notice
    &&& s.error matches Some(e) && e@ == m
}

/// The sign-up screen after an event, and what to do next.
///
/// - The form is sent only when the two passwords agree; otherwise
///   "Parollar mos kelmadi" is shown. While it is on its way the screen waits
///   and shows no error.
/// - A successful registration opens a fresh code step; a failed one shows the
///   back end's message.
/// - The code is sent only when the boxes hold `CODE_LEN` characters;
///   otherwise the screen asks for all the digits.
/// - An accepted code signs the user in with the tokens; a refused one shows
///   the back end's message.
/// - Asking for a new code clears the error; its answer shows "Yangi kod
///   yuborildi" or the back end's message.
/// - Going back to use another email opens a fresh form.
pub fn register_step(s: RegisterScreen, e: RegisterEvent) -> (r: (RegisterScreen, RegisterAction))
    ensures
        e matches RegisterEvent::SubmitForm { password, repeat } ==> (if password@ == repeat@ {
            &&& r.0.step == s.step && r.0.loading && r.0.error is None && r.0.notice == s.notice
            &&& r.1 is SendRegistration
        } else {
            &&& with_error(r.0, s, "Parollar mos kelmadi"@) && r.0.loading == s.loading
            &&& r.1 is Nothing
        }),
        e matches RegisterEvent::Registered(Ok(_)) ==> fresh(r.0, Step::Verify) && r.1 is Nothing,
        e matches RegisterEvent::Registered(Err(m)) ==> with_error(r.0, s, m@) && !r.0.loading && r.1 is Nothing,
        e matches RegisterEvent::SubmitCode(slots) ==> (if joined(slots@.map_values(|t: String| t@)).len()
            == CODE_LEN {
            &&& r.0.step == s.step && r.0.loading && r.0.error is None && r.0.notice is None
            &&& r.1 matches RegisterAction::SendCode(code) && code@ == joined(slots@.map_values(|t: String| t@))
        } else {
            &&& with_error(r.0, s, "Kodning 6 ta raqamini ham kiriting"@) && r.0.loading == s.loading
            &&& r.1 is Nothing
        }),
        e matches RegisterEvent::Verified(Ok(t)) ==> r.0.step == s.step && !r.0.loading && r.0.error == s.error
            && r.0.notice == s.notice && r.1 == RegisterAction::SignIn(t),
        e matches RegisterEvent::Verified(Err(m)) ==> with_error(r.0, s, m@) && !r.0.loading && r.1 is Nothing,
        e is Resend ==> r.0.step == s.step && r.0.loading == s.loading && r.0.error is None && r.0.notice
            == s.notice && r.1 is SendResend,
        e matches RegisterEvent::Resent(Ok(_)) ==> r.0.step == s.step && r.0.loading == s.loading && r.0.error
            == s.error && (r.0.notice matches Some(n) && n@ == "Yangi kod yuborildi"@) && r.1 is Nothing,
        e matches RegisterEvent::Resent(Err(m)) ==> with_error(r.0, s, m@) && r.0.loading == s.loading && r.1 is Nothing,
        e is OtherEmail ==> fresh(r.0, Step::Form) && r.1 is Nothing,
{
    match e {
        RegisterEvent::SubmitForm { password, repeat } => {
            match check_password_repeat(password.as_str(), repeat.as_str()) {
                Ok(()) => (RegisterScreen { step: s.step, loading: true, error: None, notice: s.notice }, RegisterAction::SendRegistration),
                Err(m) => (RegisterScreen { step: s.step, loading: s.loading, error: Some(m.to_owned()), notice: s.notice }, RegisterAction::Nothing),
            }
        },
        RegisterEvent::Registered(Ok(())) => (RegisterScreen { step: Step::Verify, loading: false, error: None, notice: None }, RegisterAction::Nothing),
        RegisterEvent::Registered(Err(m)) => (RegisterScreen { step: s.step, loading: false, error: Some(m), notice: s.notice }, RegisterAction::Nothing),
        RegisterEvent::SubmitCode(slots) => {
            match code_from_slots(&slots) {
                Ok(code) => (RegisterScreen { step: s.step, loading: true, error: None, notice: None }, RegisterAction::SendCode(code)),
                Err(m) => (RegisterScreen { step: s.step, loading: s.loading, error: Some(m), notice: s.notice }, RegisterAction::Nothing),
            }
        },
        RegisterEvent::Verified(Ok(t)) => (RegisterScreen { step: s.step, loading: false, error: s.error, notice: s.notice }, RegisterAction::SignIn(t)),
        RegisterEvent::Verified(Err(m)) => (RegisterScreen { step: s.step, loading: false, error: Some(m), notice: s.notice }, RegisterAction::Nothing),
        RegisterEvent::Resend => (RegisterScreen { step: s.step, loading: s.loading, error: None, notice: s.notice }, RegisterAction::SendResend),
        RegisterEvent::Resent(Ok(())) => (RegisterScreen { step: s.step, loading: s.loading, error: s.error, notice: Some("Yangi kod yuborildi".to_owned()) }, RegisterAction::Nothing),
        RegisterEvent::Resent(Err(m)) => (RegisterScreen { step: s.step, loading: s.loading, error: Some(m), notice: s.notice }, RegisterAction::Nothing),
        RegisterEvent::OtherEmail => (RegisterScreen { step: Step::Form, loading: false, error: None, notice: None }, RegisterAction::Nothing),
    }
}

} // verus!
