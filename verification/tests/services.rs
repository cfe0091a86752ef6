use auth_ms::claims::RefreshClaim;
use auth_ms::dto::{ChangePasswordDto, LoginData};
use auth_ms::error::{DbError, ServiceError};
use auth_ms::jwt::JwtError;
use auth_ms::models::{CreateUserDto, UserModel};
use auth_ms::password::verify_password;
use auth_ms::services::AuthService;

fn service() -> AuthService {
    AuthService {
        jwt_secret: "0123456789abcdef0123456789abcdef".to_string(),
        access_ttl_secs: 900,
        refresh_ttl_secs: 3600,
    }
}

fn stored(entity_hash: String) -> UserModel {
    UserModel { id: 9, name: "carol".to_string(), role_id: None, password_hash: entity_hash }
}

#[test]
fn register_then_login() {
    let svc = service();
    let entity = svc
        .register(CreateUserDto { name: "carol".to_string(), role_id: Some(2), password: "pw1".to_string() })
        .unwrap();
    assert_eq!(entity.name, "carol");
    assert_eq!(entity.role_id, Some(2));
    assert!(verify_password(&entity.password_hash, "pw1").is_ok());
    assert!(entity.password_hash.starts_with("$argon2id$v=19$m=19456,t=2,p=1$"));
    let tokens = svc.tokens_for_stored(Ok(stored(entity.password_hash.clone()))).unwrap();
    assert!(!tokens.access_token.is_empty());
    let login = svc.login(
        Ok(stored(entity.password_hash.clone())),
        LoginData { name: "carol".to_string(), password: "pw1".to_string() },
    );
    assert!(login.is_ok());
}

#[test]
fn login_with_wrong_password_is_unauthorized() {
    let svc = service();
    let entity = svc
        .register(CreateUserDto { name: "carol".to_string(), role_id: None, password: "pw1".to_string() })
        .unwrap();
    let r = svc.login(Ok(stored(entity.password_hash)), LoginData { name: "carol".to_string(), password: "nope".to_string() });
    assert_eq!(r, Err(ServiceError::Unauthorized("Invalid login data".to_string())));
}

#[test]
fn login_of_unknown_user_is_not_found() {
    let svc = service();
    let r = svc.login(Err(DbError::NotFound), LoginData { name: "x".to_string(), password: "y".to_string() });
    assert_eq!(r, Err(ServiceError::NotFound("User not found".to_string())));
    let r = svc.login(Err(DbError::Other("down".to_string())), LoginData { name: "x".to_string(), password: "y".to_string() });
    assert_eq!(r, Err(ServiceError::NotFound("User not found".to_string())));
}

#[test]
fn store_failure_after_register_is_reported() {
    let svc = service();
    assert_eq!(
        svc.tokens_for_stored(Err(DbError::Other("duplicate key".to_string()))),
        Err(ServiceError::Internal("duplicate key".to_string()))
    );
    assert_eq!(
        svc.tokens_for_stored(Err(DbError::NotFound)),
        Err(ServiceError::NotFound("Resource not found".to_string()))
    );
}

#[test]
fn tokens_at_a_given_time() {
    let svc = service();
    let u = stored("h".to_string());
    let a = svc.tokens_at(&u, 1000).unwrap();
    let b = auth_ms::jwt::encode_tokens(&u, &svc.jwt_secret, 900, 3600, 1000).unwrap();
    assert_eq!(a, b);
}

#[test]
fn expiry_overflow_is_internal() {
    let mut svc = service();
    svc.access_ttl_secs = u64::MAX;
    assert_eq!(
        svc.tokens_at(&stored("h".to_string()), 10),
        Err(ServiceError::Internal("token expiry out of range".to_string()))
    );
}

#[test]
fn refresh_reads_subject() {
    let svc = service();
    assert_eq!(svc.refresh(Ok(RefreshClaim { sub: "carol".to_string(), exp: 5 })), Ok("carol".to_string()));
    let e: jsonwebtoken::errors::Error = jsonwebtoken::errors::ErrorKind::ExpiredSignature.into();
    assert_eq!(svc.refresh(Err(JwtError::Jwt(e.to_string()))), Err(ServiceError::Unauthorized("jwt: ExpiredSignature".to_string())));
}

#[test]
fn change_password_checks_old_one() {
    let svc = service();
    let entity = svc
        .register(CreateUserDto { name: "carol".to_string(), role_id: None, password: "old".to_string() })
        .unwrap();
    let wrong = svc.change_password(
        Ok(stored(entity.password_hash.clone())),
        ChangePasswordDto { old_password: "bad".to_string(), new_password: "new".to_string() },
    );
    assert_eq!(wrong, Err(ServiceError::Unauthorized("Invalid old password".to_string())));
    let h = svc
        .change_password(
            Ok(stored(entity.password_hash.clone())),
            ChangePasswordDto { old_password: "old".to_string(), new_password: "new".to_string() },
        )
        .unwrap();
    assert!(verify_password(&h, "new").is_ok());
    assert!(svc.login(Ok(stored(h)), LoginData { name: "carol".to_string(), password: "new".to_string() }).is_ok());
}

#[test]
fn change_password_for_missing_user() {
    let svc = service();
    assert_eq!(
        svc.change_password(Err(DbError::NotFound), ChangePasswordDto { old_password: "a".to_string(), new_password: "b".to_string() }),
        Err(ServiceError::NotFound("Resource not found".to_string()))
    );
    assert_eq!(AuthService::password_stored(Ok(stored("h".to_string()))), Ok(()));
    assert_eq!(
        AuthService::password_stored(Err(DbError::Other("x".to_string()))),
        Err(ServiceError::Internal("x".to_string()))
    );
}
