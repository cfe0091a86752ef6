use auth_ms::error::{AppError, DbError, ServiceError};

#[test]
fn missing_row_is_not_found() {
    assert_eq!(ServiceError::from_db(DbError::NotFound), ServiceError::NotFound("Resource not found".to_string()));
}

#[test]
fn other_store_failures_are_internal() {
    assert_eq!(
        ServiceError::from_db(DbError::Other("connection reset".to_string())),
        ServiceError::Internal("connection reset".to_string())
    );
}

#[test]
fn service_errors_keep_kind_and_message() {
    assert_eq!(AppError::from(ServiceError::NotFound("a".to_string())), AppError::NotFound("a".to_string()));
    assert_eq!(AppError::from(ServiceError::Unauthorized("b".to_string())), AppError::Unauthorized("b".to_string()));
    assert_eq!(AppError::from(ServiceError::Forbidden("c".to_string())), AppError::Forbidden("c".to_string()));
    assert_eq!(
        AppError::from(ServiceError::UnprocessableEntity("d".to_string())),
        AppError::UnprocessableEntity("d".to_string())
    );
    assert_eq!(AppError::from(ServiceError::Internal("e".to_string())), AppError::Internal("e".to_string()));
}

#[test]
fn status_codes() {
    assert_eq!(AppError::NotFound(String::new()).status_code(), 404);
    assert_eq!(AppError::Unauthorized(String::new()).status_code(), 401);
    assert_eq!(AppError::Forbidden(String::new()).status_code(), 403);
    assert_eq!(AppError::UnprocessableEntity(String::new()).status_code(), 422);
    assert_eq!(AppError::Internal(String::new()).status_code(), 500);
}

#[test]
fn internal_detail_is_not_shown() {
    assert_eq!(
        AppError::Internal("db password wrong".to_string()).response_parts(),
        (500, "internal server error".to_string())
    );
    assert_eq!(AppError::Forbidden("Admin role required".to_string()).response_parts(), (403, "Admin role required".to_string()));
}

#[test]
fn error_texts() {
    assert_eq!(ServiceError::NotFound("x".to_string()).to_text(), "not found: x");
    assert_eq!(ServiceError::Internal("x".to_string()).to_text(), "internal server error: x");
    assert_eq!(ServiceError::UnprocessableEntity("x".to_string()).to_text(), "unprocessable entity: x");
    assert_eq!(AppError::Internal("x".to_string()).to_text(), "internal: x");
    assert_eq!(AppError::Unauthorized("x".to_string()).to_text(), "unauthorized: x");
}

#[test]
fn token_errors_are_unauthorized() {
    let e: jsonwebtoken::errors::Error = jsonwebtoken::errors::ErrorKind::ExpiredSignature.into();
    assert_eq!(
        ServiceError::from_jwt(auth_ms::jwt::JwtError::Jwt(e.to_string())),
        ServiceError::Unauthorized("jwt: ExpiredSignature".to_string())
    );
}

#[test]
fn hashing_errors_are_internal() {
    let e = argon2::password_hash::Error::Password;
    assert_eq!(ServiceError::from_password_hash(e.to_string()), ServiceError::Internal("invalid password".to_string()));
}
