use oauth::domain::dtos::base::claims::Claims;
use oauth::domain::dtos::request::login_command::LoginCommand;
use oauth::domain::dtos::request::register_command::RegisterCommand;
use oauth::domain::error::app_error::AppError;
use oauth::domain::model::principal::{bearer_token, principal_from_authorization, principal_from_verified, UserPrincipal};
use oauth::domain::model::user::User;
use oauth::usecase::jwt::{accept_claims, JwtService};
use oauth::usecase::users::UsersUseCase;

fn parse_claims(json: &str) -> Option<Claims> {
    let v: serde_json::Value = serde_json::from_str(json).ok()?;
    let roles = v.get("roles")?.as_array()?;
    let mut role_names = Vec::new();
    for r in roles {
        role_names.push(r.as_str()?.to_string());
    }
    Some(Claims {
        sub: i32::try_from(v.get("sub")?.as_i64()?).ok()?,
        username: v.get("username")?.as_str()?.to_string(),
        roles: role_names,
        exp: v.get("exp")?.as_u64()?,
        iat: v.get("iat")?.as_u64()?,
        token_type: v.get("token_type")?.as_str()?.to_string(),
    })
}

fn ali() -> User {
    User { id: 7, name: "ali".to_string(), email: "ali@example.com".to_string(), password_hash: String::new() }
}

#[test]
fn validate_accepts_a_good_command() {
    let cmd = RegisterCommand { name: "Ali".into(), email: "ali@example.com".into(), password: "12345678".into() };
    assert!(cmd.validate().is_ok());
}

#[test]
fn validate_reports_every_field() {
    let cmd = RegisterCommand { name: " \t ".into(), email: "ali.example.com".into(), password: "1234567".into() };
    match cmd.validate() {
        Err(AppError::Validation(errs)) => {
            let fields: Vec<&str> = errs.iter().map(|e| e.field).collect();
            assert_eq!(fields, ["name", "email", "password"]);
            assert_eq!(errs[0].message, "bo'sh bo'lmasligi kerak");
            assert_eq!(errs[1].message, "noto'g'ri format");
            assert_eq!(errs[2].message, "kamida 8 ta belgi");
        }
        other => panic!("unexpected {other:?}"),
    }
}

#[test]
fn password_length_counts_bytes() {
    // four two-byte characters are eight bytes
    let cmd = RegisterCommand { name: "Ali".into(), email: "a@b".into(), password: "ŝŝŝŝ".into() };
    assert!(cmd.validate().is_ok());
    let cmd = RegisterCommand { name: "Ali".into(), email: "a@b".into(), password: "ŝŝŝ".into() };
    assert!(cmd.validate().is_err());
}

#[test]
fn registration_then_login() {
    let cmd = RegisterCommand { name: "Ali".into(), email: "ali@example.com".into(), password: "correct horse".into() };
    let new_user = UsersUseCase::<()>::registration(cmd).unwrap();
    assert_eq!(new_user.name, "Ali");
    assert_eq!(new_user.email, "ali@example.com");
    assert_ne!(new_user.password_hash, "correct horse");
    assert!(new_user.password_hash.starts_with("$argon2id$"));
    let stored = User { id: 1, name: new_user.name, email: new_user.email, password_hash: new_user.password_hash };

    let good = LoginCommand { email: "ali@example.com".into(), password: "correct horse".into() };
    let ok = UsersUseCase::<()>::check_credentials(&good, Some(stored.clone())).unwrap();
    assert_eq!(ok.id, 1);

    let bad = LoginCommand { email: "ali@example.com".into(), password: "wrong".into() };
    assert!(matches!(UsersUseCase::<()>::check_credentials(&bad, Some(stored)), Err(AppError::Unauthorized)));
    assert!(matches!(UsersUseCase::<()>::check_credentials(&good, None), Err(AppError::Unauthorized)));
}

#[test]
fn registration_rejects_invalid_commands() {
    let cmd = RegisterCommand { name: "".into(), email: "x".into(), password: "".into() };
    assert!(matches!(UsersUseCase::<()>::registration(cmd), Err(AppError::Validation(e)) if e.len() == 3));
}

#[test]
fn malformed_hash_never_matches() {
    let stored = User { id: 1, name: "a".into(), email: "a@b".into(), password_hash: "not a hash".into() };
    let cmd = LoginCommand { email: "a@b".into(), password: "not a hash".into() };
    assert!(UsersUseCase::<()>::check_credentials(&cmd, Some(stored)).is_err());
}

#[test]
fn get_answers_not_found() {
    match UsersUseCase::<()>::found_user(None) {
        Err(AppError::NotFound { entity }) => assert_eq!(entity, "user"),
        other => panic!("unexpected {other:?}"),
    }
    assert_eq!(UsersUseCase::<()>::found_user(Some(ali())).unwrap().id, 7);
}

#[test]
fn use_case_keeps_its_port() {
    let uc = UsersUseCase::new(41u8);
    assert_eq!(*uc.port(), 41);
}

#[test]
fn issued_tokens_verify_by_type() {
    let jwt = JwtService::new("a-secret-of-at-least-thirty-two-chars");
    let pair = jwt.issue(&ali(), vec!["admin".to_string(), "editor".to_string()]).unwrap();
    assert_eq!(pair.expires_in, 900);

    let claims = jwt.verify_access(&pair.access_token, &parse_claims).unwrap();
    assert_eq!(claims.sub, 7);
    assert_eq!(claims.username, "ali");
    assert_eq!(claims.roles, vec!["admin".to_string(), "editor".to_string()]);
    assert_eq!(claims.token_type, "access");
    assert_eq!(claims.exp, claims.iat + 900);

    let refresh = jwt.verify_refresh(&pair.refresh_token, &parse_claims).unwrap();
    assert_eq!(refresh.exp, refresh.iat + 604800);
    assert_eq!(refresh.token_type, "refresh");

    assert!(matches!(jwt.verify_access(&pair.refresh_token, &parse_claims), Err(AppError::Unauthorized)));
    assert!(matches!(jwt.verify_refresh(&pair.access_token, &parse_claims), Err(AppError::Unauthorized)));
}

#[test]
fn tokens_from_another_secret_are_rejected() {
    let a = JwtService::new("first-secret");
    let b = JwtService::new("second-secret");
    let pair = a.issue(&ali(), vec![]).unwrap();
    assert!(matches!(b.verify_access(&pair.access_token, &parse_claims), Err(AppError::Unauthorized)));
    assert!(matches!(a.verify_access("not.a.token", &parse_claims), Err(AppError::Unauthorized)));
}

#[test]
fn expired_tokens_are_rejected() {
    let jwt = JwtService::new("s");
    let pair = jwt.issue_at(&ali(), vec![], 1000).unwrap();
    assert!(matches!(jwt.verify_access(&pair.access_token, &parse_claims), Err(AppError::Unauthorized)));
    // valid until exp (1900) plus the 60 s leeway
    assert!(jwt.verify_access_at(&pair.access_token, &parse_claims, 1960).is_ok());
    assert!(matches!(jwt.verify_access_at(&pair.access_token, &parse_claims, 1961), Err(AppError::Unauthorized)));
    assert!(jwt.verify_refresh_at(&pair.refresh_token, &parse_claims, 1961).is_ok());
}

#[test]
fn issued_claims_read_back_at_a_given_time() {
    let jwt = JwtService::new("s");
    let pair = jwt.issue_at(&ali(), vec!["x".into()], 1_700_000_000).unwrap();
    let c = jwt.verify_access_at(&pair.access_token, &parse_claims, 1_700_000_100).unwrap();
    assert_eq!((c.sub, c.username.as_str(), c.exp, c.iat), (7, "ali", 1_700_000_900, 1_700_000_000));
    assert_eq!(c.roles, vec!["x".to_string()]);
    assert!(matches!(
        jwt.verify_access_at(&pair.refresh_token, &parse_claims, 1_700_000_100),
        Err(AppError::Unauthorized)
    ));
    let other = JwtService::new("t");
    assert!(matches!(
        other.verify_access_at(&pair.access_token, &parse_claims, 1_700_000_100),
        Err(AppError::Unauthorized)
    ));
}

#[test]
fn issue_at_refuses_a_time_past_the_range() {
    let jwt = JwtService::new("s");
    assert!(matches!(jwt.issue_at(&ali(), vec![], u64::MAX - 899), Err(AppError::Internal(_))));
    assert!(matches!(jwt.issue_at(&ali(), vec![], u64::MAX - 604799), Err(AppError::Internal(_))));
    assert!(jwt.issue_at(&ali(), vec![], u64::MAX - 604800).is_ok());
}

#[test]
fn token_payload_keeps_the_field_order() {
    let jwt = JwtService::new("s");
    let pair = jwt.issue_at(&ali(), vec![], 1000).unwrap();
    let payload = pair.access_token.split('.').nth(1).unwrap().to_string();
    // {"sub":7,"username":"ali","roles":[],"exp":1900,"iat":1000,"token_type":"access"}
    assert_eq!(
        payload,
        "eyJzdWIiOjcsInVzZXJuYW1lIjoiYWxpIiwicm9sZXMiOltdLCJleHAiOjE5MDAsImlhdCI6MTAwMCwidG9rZW5fdHlwZSI6ImFjY2VzcyJ9"
    );
}

#[test]
fn issue_at_is_deterministic() {
    let jwt = JwtService::new("s");
    let p1 = jwt.issue_at(&ali(), vec!["x".into()], 1_700_000_000).unwrap();
    let p2 = jwt.issue_at(&ali(), vec!["x".into()], 1_700_000_000).unwrap();
    assert_eq!(p1.access_token, p2.access_token);
    assert_ne!(p1.access_token, p1.refresh_token);
}

#[test]
fn accept_claims_checks_the_type() {
    let c = Claims { sub: 1, username: "u".into(), roles: vec![], exp: 2, iat: 1, token_type: "refresh".into() };
    assert!(matches!(accept_claims(Some(c.clone()), "access", 0), Err(AppError::Unauthorized)));
    assert_eq!(accept_claims(Some(c.clone()), "refresh", 62).unwrap().sub, 1);
    assert!(matches!(accept_claims(Some(c), "refresh", 63), Err(AppError::Unauthorized)));
    assert!(matches!(accept_claims(None, "access", 0), Err(AppError::Unauthorized)));
}

#[test]
fn bearer_header_is_required() {
    assert_eq!(bearer_token("Bearer abc.def"), Some("abc.def"));
    assert_eq!(bearer_token("bearer abc"), None);
    assert_eq!(bearer_token("Bearer"), None);
    assert_eq!(bearer_token("Bearer "), Some(""));
}

#[test]
fn principal_comes_from_a_valid_access_token() {
    let jwt = JwtService::new("k");
    let pair = jwt.issue(&ali(), vec!["editor".into()]).unwrap();
    let header = format!("Bearer {}", pair.access_token);
    let p: UserPrincipal = principal_from_authorization(&jwt, Some(&header), &parse_claims).ok().unwrap();
    assert_eq!(p.user_id, 7);
    assert!(p.has_role("editor"));
    assert!(!p.has_role("admin"));

    let missing = principal_from_authorization(&jwt, None, &parse_claims).err().unwrap();
    assert_eq!(missing.status, 401);
    assert_eq!(missing.message, "Authorization: Bearer header yo'q");
    let bad = principal_from_authorization(&jwt, Some("Bearer x"), &parse_claims).err().unwrap();
    assert_eq!(bad.status, 401);
    assert_eq!(bad.message, "Token noto'g'ri yoki muddati o'tgan");
    let refresh = format!("Bearer {}", pair.refresh_token);
    assert!(principal_from_authorization(&jwt, Some(&refresh), &parse_claims).is_err());
}

#[test]
fn principal_from_verified_claims() {
    let c = Claims { sub: 3, username: "vali".into(), roles: vec!["a".into()], exp: 9, iat: 1, token_type: "access".into() };
    let p = principal_from_verified(Ok(c)).ok().unwrap();
    assert_eq!((p.user_id, p.username.as_str()), (3, "vali"));
    assert_eq!(p.roles, vec!["a".to_string()]);
    let e = principal_from_verified(Err(AppError::Unauthorized)).err().unwrap();
    assert_eq!((e.status, e.message), (401, "Token noto'g'ri yoki muddati o'tgan"));
    let e = principal_from_verified(Err(AppError::Internal("x".into()))).err().unwrap();
    assert_eq!(e.status, 401);
}

#[test]
fn empty_hash_never_matches() {
    let stored = User { id: 1, name: "a".into(), email: "a@b".into(), password_hash: String::new() };
    let cmd = LoginCommand { email: "a@b".into(), password: String::new() };
    assert!(matches!(UsersUseCase::<()>::check_credentials(&cmd, Some(stored)), Err(AppError::Unauthorized)));
}

#[test]
fn has_role_is_exact() {
    let p = UserPrincipal::new(1, "u".into(), vec!["member".into(), "editor".into()]);
    assert!(p.has_role("member"));
    assert!(!p.has_role("membe"));
    assert!(!p.has_role(""));
    assert_eq!(p.user_id, 1);
}
