use oauth::frontend::auth::AuthTokens;
use oauth::frontend::auth_state::AuthSession;
use oauth::frontend::code_entry::{backspace_focus, check_password_repeat, code_from_slots, spread_digits, CODE_LEN};
use oauth::frontend::provider::OAuthProvider;
use oauth::frontend::register_flow::{register_step, RegisterAction, RegisterEvent, RegisterScreen, Step};

#[test]
fn provider_ids_and_labels() {
    let ids: Vec<&str> = OAuthProvider::ALL.iter().map(|p| p.id()).collect();
    assert_eq!(ids, ["google", "github", "gitlab", "telegram"]);
    let labels: Vec<&str> = OAuthProvider::ALL.iter().map(|p| p.label()).collect();
    assert_eq!(labels, ["Google", "GitHub", "GitLab", "Telegram"]);
}

#[test]
fn session_signs_in_and_out() {
    let mut s = AuthSession::new();
    assert!(!s.is_logged_in());
    s.set_tokens(AuthTokens { access_token: "a".into(), refresh_token: "r".into() });
    assert!(s.is_logged_in());
    s.clear_tokens();
    assert!(!s.is_logged_in());
}

fn empty_slots() -> Vec<String> {
    vec![String::new(); CODE_LEN]
}

#[test]
fn pasted_code_fills_the_boxes() {
    let mut slots = empty_slots();
    let focus = spread_digits(&mut slots, 0, "12 34-56");
    assert_eq!(slots, ["1", "2", "3", "4", "5", "6"]);
    assert_eq!(focus, Some(5));
    assert_eq!(code_from_slots(&slots), Ok("123456".to_string()));
}

#[test]
fn typing_moves_the_focus() {
    let mut slots = empty_slots();
    assert_eq!(spread_digits(&mut slots, 2, "7"), Some(3));
    assert_eq!(slots[2], "7");
    assert_eq!(spread_digits(&mut slots, 4, "9999"), Some(5));
    assert_eq!(slots, ["", "", "7", "", "9", "9"]);
    assert_eq!(spread_digits(&mut slots, 2, "x"), None);
    assert_eq!(slots[2], "");
    assert_eq!(code_from_slots(&slots), Err("Kodning 6 ta raqamini ham kiriting".to_string()));
}

#[test]
fn backspace_goes_back_only_from_an_empty_box() {
    assert_eq!(backspace_focus(3, true), Some(2));
    assert_eq!(backspace_focus(3, false), None);
    assert_eq!(backspace_focus(0, true), None);
}

#[test]
fn passwords_must_match() {
    assert_eq!(check_password_repeat("abc", "abc"), Ok(()));
    assert_eq!(check_password_repeat("abc", "abd"), Err("Parollar mos kelmadi"));
}

#[test]
fn provider_button_text() {
    assert_eq!(OAuthProvider::Github.button_text(), "GitHub bilan davom etish");
    assert_eq!(OAuthProvider::Telegram.button_text(), "Telegram bilan davom etish");
}

fn form() -> RegisterScreen {
    RegisterScreen { step: Step::Form, loading: false, error: None, notice: None }
}

#[test]
fn sign_up_form_checks_the_password_repeat() {
    let (s, a) = register_step(form(), RegisterEvent::SubmitForm { password: "abc".into(), repeat: "abd".into() });
    assert_eq!(s.error.as_deref(), Some("Parollar mos kelmadi"));
    assert!(!s.loading);
    assert!(matches!(a, RegisterAction::Nothing));
    let (s, a) = register_step(s, RegisterEvent::SubmitForm { password: "abc".into(), repeat: "abc".into() });
    assert!(s.loading && s.error.is_none());
    assert!(matches!(a, RegisterAction::SendRegistration));
    let (s, _) = register_step(s, RegisterEvent::Registered(Err("band".into())));
    assert_eq!((s.step, s.loading, s.error.as_deref()), (Step::Form, false, Some("band")));
}

#[test]
fn sign_up_goes_through_the_code_step() {
    let (s, _) = register_step(form(), RegisterEvent::Registered(Ok(())));
    assert_eq!((s.step, s.loading), (Step::Verify, false));
    let short: Vec<String> = vec!["1".into(), "2".into(), "".into(), "4".into(), "5".into(), "6".into()];
    let (s, a) = register_step(s, RegisterEvent::SubmitCode(short));
    assert_eq!(s.error.as_deref(), Some("Kodning 6 ta raqamini ham kiriting"));
    assert!(matches!(a, RegisterAction::Nothing));
    let full: Vec<String> = "123456".chars().map(|c| c.to_string()).collect();
    let (s, a) = register_step(s, RegisterEvent::SubmitCode(full));
    assert!(s.loading && s.error.is_none());
    match a {
        RegisterAction::SendCode(code) => assert_eq!(code, "123456"),
        other => panic!("unexpected {other:?}"),
    }
    let (s, a) = register_step(s, RegisterEvent::Resend);
    assert!(matches!(a, RegisterAction::SendResend));
    let (s, _) = register_step(s, RegisterEvent::Resent(Ok(())));
    assert_eq!(s.notice.as_deref(), Some("Yangi kod yuborildi"));
    let tokens = AuthTokens { access_token: "a".into(), refresh_token: "r".into() };
    let (s, a) = register_step(s, RegisterEvent::Verified(Ok(tokens.clone())));
    assert!(!s.loading);
    match a {
        RegisterAction::SignIn(t) => assert_eq!(t, tokens),
        other => panic!("unexpected {other:?}"),
    }
    let (s, _) = register_step(s, RegisterEvent::OtherEmail);
    assert_eq!((s.step, s.loading, s.error, s.notice), (Step::Form, false, None, None));
}
