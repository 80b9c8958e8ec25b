use schedule_auth::error::{
    json_error_handler, path_error_handler, query_error_handler, APIError, JsonPayloadFailure,
    RequestScope,
};
use schedule_auth::model::account::{Account, AccountID, RegistrationError};
use schedule_auth::model::permission::PermissionError;
use schedule_auth::model::repeat::weekly::WeekDay;
use schedule_auth::payload::Payload;
use schedule_auth::response::APIResponse;
use schedule_auth::routes::auth::{login, login_at};
use schedule_auth::routes::permission::EntityType;
use schedule_auth::routes::teacher::TeacherUpdateRequest;
use schedule_auth::token::{ApplicationToken, InvalidDuration, RefreshTokenID};

fn every_error() -> Vec<(APIError, u16, &'static str, &'static str)> {
    vec![
        (APIError::InternalError { message: "boom".to_string() }, 500, "internal_error", "Internal server error (boom)"),
        (APIError::LoginAlreadyPresent, 401, "login_already_present", "Login already present"),
        (APIError::InvalidCredentials, 401, "invalid_credentials", "Invalid credentials"),
        (APIError::InvalidToken, 401, "invalid_token", "Invalid token"),
        (APIError::TokenExpired, 401, "token_expired", "Token expired"),
        (APIError::NoTokenPresent, 401, "no_token_present", "No token present"),
        (APIError::TokenRevoked, 401, "token_revoked", "Token revoked"),
        (APIError::BadRequest { message: "m".to_string(), scope: None }, 400, "bad_request", "Bad request"),
        (APIError::PayloadTooLarge, 413, "payload_too_large", "Payload too large"),
        (APIError::LessonDosNotExist, 404, "lesson_dos_not_exist", "Lesson does not exist"),
        (APIError::NoReadAccess, 403, "no_read_access", "No read access"),
        (APIError::NoWriteAccess, 403, "no_write_access", "No write access"),
    ]
}

#[test]
fn every_error_has_its_status_discriminant_and_message() {
    for (error, status, discriminant, message) in every_error() {
        assert_eq!(error.status_code(), status);
        assert_eq!(error.discriminant(), discriminant);
        assert_eq!(error.message(), message);
    }
}

#[test]
fn discriminant_holds_nothing_of_the_text() {
    let a = APIError::InternalError { message: "password=hunter2 at 10.0.0.1".to_string() };
    let b = APIError::internal(String::new());
    assert_eq!(a.discriminant(), b.discriminant());
    assert_eq!(a.status_code(), b.status_code());
    assert_eq!(b.message(), "Internal server error ()");
}

#[test]
fn scopes_have_names() {
    assert_eq!(RequestScope::Body.name(), "body");
    assert_eq!(RequestScope::Query.name(), "query");
    assert_eq!(RequestScope::Header.name(), "header");
    assert_eq!(RequestScope::Path.name(), "path");
}

#[test]
fn broken_requests_are_bad_requests() {
    assert!(matches!(json_error_handler(JsonPayloadFailure::Overflow), APIError::PayloadTooLarge));
    match json_error_handler(JsonPayloadFailure::Deserialize("missing field".to_string())) {
        APIError::BadRequest { message, scope } => {
            assert_eq!(message, "missing field");
            assert_eq!(scope, Some(RequestScope::Body));
        }
        _ => panic!("no bad request"),
    }
    match json_error_handler(JsonPayloadFailure::Other("content type".to_string())) {
        APIError::BadRequest { message, scope } => {
            assert_eq!(message, "content type");
            assert_eq!(scope, Some(RequestScope::Body));
        }
        _ => panic!("no bad request"),
    }
    match path_error_handler("no uuid".to_string()) {
        APIError::BadRequest { message, scope } => {
            assert_eq!(message, "no uuid");
            assert_eq!(scope, Some(RequestScope::Path));
        }
        _ => panic!("no bad request"),
    }
    match query_error_handler("no date".to_string()) {
        APIError::BadRequest { message, scope } => {
            assert_eq!(message, "no date");
            assert_eq!(scope, Some(RequestScope::Query));
        }
        _ => panic!("no bad request"),
    }
}

#[test]
fn errors_below_become_errors_for_the_caller() {
    assert!(matches!(
        APIError::from_permission_error(PermissionError::EntityNotPresent),
        APIError::LessonDosNotExist
    ));
    assert!(matches!(
        APIError::from_permission_error(PermissionError::PermissionNotPresent),
        APIError::NoReadAccess
    ));
    match APIError::from_permission_error(PermissionError::Sqlx("pool closed".to_string())) {
        APIError::InternalError { message } => assert_eq!(message, "pool closed"),
        _ => panic!("no internal error"),
    }
    assert!(matches!(
        APIError::from_registration_error(RegistrationError::LoginNotUnique),
        APIError::LoginAlreadyPresent
    ));
    match APIError::from_registration_error(RegistrationError::Database("down".to_string())) {
        APIError::InternalError { message } => assert_eq!(message, "down"),
        _ => panic!("no internal error"),
    }
    match APIError::from_registration_error(RegistrationError::Bcrypt("cost".to_string())) {
        APIError::InternalError { message } => assert_eq!(message, "cost"),
        _ => panic!("no internal error"),
    }
    match APIError::from_invalid_duration(InvalidDuration {}) {
        APIError::InternalError { message } => {
            assert_eq!(message, "Invalid token validity duration. Datetime overflow")
        }
        _ => panic!("no internal error"),
    }
    assert_eq!(PermissionError::EntityNotPresent.message(), "Entity not present");
    assert_eq!(PermissionError::PermissionNotPresent.message(), "Permission not present");
    assert_eq!(
        PermissionError::Sqlx("x".to_string()).message(),
        "sqlx error occurred while fetching permission (x)"
    );
    assert_eq!(RegistrationError::LoginNotUnique.message(), "Login is no unique");
    assert_eq!(RegistrationError::Database("d".to_string()).message(), "d");
}

#[test]
fn password_is_checked_against_its_hash() {
    let hash = Account::hash_new_password("correct horse").unwrap();
    assert_ne!(hash, "correct horse");
    assert!(hash.starts_with("$2b$08$"));
    let other = Account::hash_new_password("correct horse").unwrap();
    assert_ne!(hash, other);
    let account = Account::register(
        AccountID(3),
        "Ada".to_string(),
        None,
        "ada".to_string(),
        hash,
    );
    assert_eq!(account.id, AccountID(3));
    assert_eq!(account.login, "ada");
    assert!(account.check_password("correct horse").is_ok());
    assert!(matches!(account.check_password("wrong"), Err(APIError::InvalidCredentials)));
    assert!(matches!(account.check_password(""), Err(APIError::InvalidCredentials)));
    let broken = Account { password_hash: "no hash".to_string(), ..account.clone() };
    assert!(matches!(broken.check_password("correct horse"), Err(APIError::InternalError { .. })));
    let plain = Account { password_hash: "correct horse".to_string(), ..account };
    assert!(plain.check_password("correct horse").is_err());
}

#[test]
fn login_needs_the_account_and_its_password() {
    let hash = Account::hash_new_password("secret").unwrap();
    let account = Account::register(AccountID(3), "A".to_string(), Some("B".to_string()), "ab".to_string(), hash);
    assert!(matches!(
        login_at(None, "secret", "key", RefreshTokenID(1), 1000),
        Err(APIError::InvalidCredentials)
    ));
    assert!(matches!(
        login_at(Some(account.clone()), "Secret", "key", RefreshTokenID(1), 1000),
        Err(APIError::InvalidCredentials)
    ));
    let tokens = login_at(Some(account.clone()), "secret", "key", RefreshTokenID(1), 1000).unwrap();
    let claim = tokens.access_token.authenticate_claim_at("key", 1000).unwrap();
    assert_eq!(claim.inner.account_id, AccountID(3));
    assert_eq!(claim.inner.token_origin, RefreshTokenID(1));
    let claim = tokens.refresh_token.authenticate_claim_at("key", 1000).unwrap();
    assert_eq!(claim.inner.token_id, RefreshTokenID(1));
    let tokens = login(Some(account.clone()), "secret", "key").unwrap();
    assert_eq!(tokens.access_token.authenticate_claim("key").unwrap().inner.account_id, AccountID(3));
    assert!(matches!(login(None, "secret", "key"), Err(APIError::InvalidCredentials)));
    assert!(matches!(login(Some(account), "x", "key"), Err(APIError::InvalidCredentials)));
}

#[test]
fn login_is_taken_where_one_account_has_it() {
    assert!(Account::login_is_free(0).is_ok());
    assert!(matches!(Account::login_is_free(1), Err(RegistrationError::LoginNotUnique)));
    assert!(Account::login_is_free(2).is_ok());
    assert!(Account::login_is_free(-1).is_ok());
}

#[test]
fn days_of_the_week_have_numbers() {
    let days = [
        WeekDay::Monday,
        WeekDay::Tuesday,
        WeekDay::Wednesday,
        WeekDay::Thursday,
        WeekDay::Friday,
        WeekDay::Saturday,
        WeekDay::Sunday,
    ];
    for (i, day) in days.iter().enumerate() {
        assert_eq!(day.number(), i as i16 + 1);
        assert_eq!(WeekDay::from_number(i as i16 + 1), Some(*day));
    }
    assert_eq!(WeekDay::from_number(0), None);
    assert_eq!(WeekDay::from_number(8), None);
    assert_eq!(WeekDay::from_number(-1), None);
}

#[test]
fn answers_hold_a_payload_or_an_error() {
    let ok: APIResponse<u32> = APIResponse::from_ok(5);
    assert!(ok.is_ok());
    assert_eq!(ok.into_result().unwrap(), 5);
    let ok: APIResponse<u32> = APIResponse::payload(6);
    assert_eq!(ok.into_result().unwrap(), 6);
    let failed: APIResponse<u32> = APIResponse::from_error(APIError::NoReadAccess);
    assert!(!failed.is_ok());
    assert!(matches!(failed.into_result(), Err(APIError::NoReadAccess)));
    let ok: APIResponse<u32> = APIResponse::from_result(Ok(Payload::new(7)));
    assert_eq!(ok.into_result().unwrap(), 7);
    let failed: APIResponse<u32> = APIResponse::from_result(Err(APIError::TokenExpired));
    assert!(matches!(failed.into_result(), Err(APIError::TokenExpired)));
    assert_eq!(Payload::new("x").payload, "x");
}

#[test]
fn kinds_and_requests() {
    assert_eq!(EntityType::Teacher.name(), "teacher");
    assert_eq!(EntityType::Lesson.name(), "lesson");
    assert_eq!(EntityType::Task.name(), "task");
    let request = TeacherUpdateRequest::default();
    assert_eq!(request.first_name, None);
    assert_eq!(request.last_name, None);
}
