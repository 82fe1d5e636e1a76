use oauth::config::{optional, parse_u16, AppConfig, MissingVariable};
use oauth::controller::auth::{callback, login, CallbackAction, LoginAction};
use oauth::controller::error_body::error_body;
use oauth::domain::dtos::base::pagination::Pagination;
use oauth::domain::enums::direction::Direction;
use oauth::domain::enums::sort_direction::SortDirection;
use oauth::domain::error::app_error::AppError;
use oauth::domain::error::field_error::FieldError;
use oauth::controller::users::list_request;
use oauth::domain::dtos::request::user_request::UserRequest;
use oauth::store::users::{keyset_query, users_query, CursorFilter, KeysetQuery};

#[test]
fn providers_redirect_or_are_not_found() {
    assert_eq!(login("google"), LoginAction::Redirect("https://accounts.google.com/o/oauth2/v2/auth"));
    assert_eq!(login("github"), LoginAction::Redirect("https://github.com/login/oauth/authorize"));
    assert_eq!(login("gitlab"), LoginAction::NotFound);
    assert_eq!(callback("google"), CallbackAction::Accepted);
    assert_eq!(callback("github"), CallbackAction::Accepted);
    assert_eq!(callback("Google"), CallbackAction::NotFound);
}

#[test]
fn error_messages_and_statuses() {
    assert_eq!(AppError::NotFound { entity: "user" }.message(), "user topilmadi");
    assert_eq!(AppError::NotFound { entity: "user" }.status_code(), 404);
    assert_eq!(AppError::AlreadyExists { entity: "user", field: "email" }.message(), "user: email allaqachon mavjud");
    assert_eq!(AppError::AlreadyExists { entity: "user", field: "email" }.status_code(), 409);
    assert_eq!(AppError::Unauthorized.message(), "autentifikatsiya talab qilinadi");
    assert_eq!(AppError::Unauthorized.status_code(), 401);
    assert_eq!(AppError::Forbidden.message(), "ruxsat yo'q");
    assert_eq!(AppError::Forbidden.status_code(), 403);
    assert_eq!(AppError::ServiceUnavailable("db".into()).message(), "xizmat mavjud emas: db");
    assert_eq!(AppError::ServiceUnavailable("db".into()).status_code(), 503);
    assert_eq!(AppError::Internal("boom".into()).message(), "ichki xato: boom");
    assert_eq!(AppError::Internal("boom".into()).status_code(), 500);
    let v = AppError::Validation(vec![
        FieldError { field: "name", message: "bo'sh".into() },
        FieldError { field: "email", message: "format".into() },
    ]);
    assert_eq!(v.message(), "validatsiya xatolari: name: bo'sh; email: format");
    assert_eq!(v.status_code(), 400);
}

#[test]
fn error_body_hides_internal_detail() {
    let b = error_body(AppError::Internal("password=123".into()));
    assert_eq!(b.status, 500);
    assert_eq!(b.message, "ichki xato");
    assert!(b.errors.is_empty());
    let v = error_body(AppError::Validation(vec![FieldError { field: "email", message: "noto'g'ri format".into() }]));
    assert_eq!(v.status, 400);
    assert_eq!(v.errors.len(), 1);
    assert_eq!(v.errors[0].field, "email");
    assert_eq!(error_body(AppError::Forbidden).message, "ruxsat yo'q");
}

#[test]
fn ports_parse_like_std() {
    for s in ["0", "80", "+443", "65535", "0080", "", "+", "-1", "65536", "8o", " 80", "99999999999"] {
        assert_eq!(parse_u16(s), s.parse::<u16>().ok(), "{s:?}");
    }
    assert_eq!(optional(Some("8080"), 3000), 8080);
    assert_eq!(optional(Some("x"), 3000), 3000);
    assert_eq!(optional(None, 50051), 50051);
}

#[test]
fn config_requires_database_and_secret() {
    let missing = AppConfig::from_values(None, None, None, None, Some("s".into()));
    assert_eq!(missing.err(), Some(MissingVariable { key: "DATABASE_URL" }));
    let missing = AppConfig::from_values(Some("postgres://".into()), None, None, None, None);
    assert_eq!(missing.err(), Some(MissingVariable { key: "JWT_SECRET" }));
    let c = AppConfig::from_values(Some("postgres://".into()), Some("8080"), None, None, Some("s".into())).ok().unwrap();
    assert_eq!(c.http_port, 8080);
    assert_eq!(c.grpc_port, 50051);
    assert_eq!(c.cors_origin, "https://oauth.uz");
    assert_eq!(c.database_url, "postgres://");
}

#[test]
fn keyset_queries() {
    let q = keyset_query(&Pagination::new(Some(3), Some(3), Direction::Next));
    assert_eq!(q, KeysetQuery { ascending: true, filter: Some(CursorFilter::After(3)), fetch: 4 });
    let q = keyset_query(&Pagination::new(Some(4), Some(3), Direction::Prev));
    assert_eq!(q, KeysetQuery { ascending: false, filter: Some(CursorFilter::Before(4)), fetch: 4 });
    let q = keyset_query(&Pagination::new(Some(4), None, Direction::Last));
    assert_eq!(q, KeysetQuery { ascending: false, filter: None, fetch: 21 });
    let q = keyset_query(&Pagination::new(Some(4), Some(100), Direction::First));
    assert_eq!(q, KeysetQuery { ascending: true, filter: None, fetch: 51 });
    let q = keyset_query(&Pagination::new(Some(8), Some(3), Direction::Next).on("id", SortDirection::Desc));
    assert_eq!(q, KeysetQuery { ascending: false, filter: Some(CursorFilter::Before(8)), fetch: 4 });
    let q = keyset_query(&Pagination::new(Some(5), Some(3), Direction::Prev).on("id", SortDirection::Desc));
    assert_eq!(q, KeysetQuery { ascending: true, filter: Some(CursorFilter::After(5)), fetch: 4 });
}

#[test]
fn users_query_wraps_the_filters() {
    let p = Pagination::new(Some(3), Some(3), Direction::Next);
    let params = UserRequest { name_contains: Some("al".into()), email_contains: None };
    let q = users_query(&p, &params);
    assert_eq!(q.keyset, keyset_query(&p));
    assert_eq!(q.name_pattern.as_deref(), Some("%al%"));
    assert_eq!(q.email_pattern, None);
    let params = UserRequest { name_contains: None, email_contains: Some("@x.uz".into()) };
    let q = users_query(&p, &params);
    assert_eq!(q.name_pattern, None);
    assert_eq!(q.email_pattern.as_deref(), Some("%@x.uz%"));
}

#[test]
fn list_request_reads_the_cursors() {
    let p = list_request(Some(5), Some(9), 0);
    assert_eq!((p.cursor(), p.direction(), p.size()), (Some(9), Direction::Prev, None));
    let p = list_request(Some(5), None, 20);
    assert_eq!((p.cursor(), p.direction(), p.size()), (Some(5), Direction::Next, Some(20)));
    let p = list_request(None, None, 0);
    assert_eq!((p.cursor(), p.direction()), (None, Direction::Next));
    assert_eq!(*p.sort(), SortDirection::Asc);
}
