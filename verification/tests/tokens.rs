use auth_ms::claims::{AccessClaim, RefreshClaim};
use auth_ms::dto::TokenResponse;
use auth_ms::jwt::{check_claims, decode_claims_text, encode_tokens, now_unix_secs, pair_tokens, secs_or_zero, JwtError};
use auth_ms::models::UserModel;

const SECRET: &str = "0123456789abcdef0123456789abcdef";

fn user(role: Option<u128>) -> UserModel {
    UserModel {
        id: 0x67e5504410b1426f9247bb680e5fe0c8,
        name: "alice".to_string(),
        role_id: role,
        password_hash: "x".to_string(),
    }
}

#[test]
fn access_claim_json_matches_serde_layout() {
    let c = AccessClaim {
        id: 0x67e5504410b1426f9247bb680e5fe0c8,
        name: "al\"ice\n\u{1}".to_string(),
        role_id: None,
        exp: 1700000000,
    };
    assert_eq!(
        c.to_json(),
        "{\"id\":\"67e55044-10b1-426f-9247-bb680e5fe0c8\",\"name\":\"al\\\"ice\\n\\u0001\",\"role_id\":null,\"exp\":1700000000}"
    );
}

#[test]
fn access_claim_json_with_role() {
    let c = AccessClaim { id: 1, name: "b".to_string(), role_id: Some(u128::MAX), exp: 0 };
    assert_eq!(
        c.to_json(),
        "{\"id\":\"00000000-0000-0000-0000-000000000001\",\"name\":\"b\",\"role_id\":\"ffffffff-ffff-ffff-ffff-ffffffffffff\",\"exp\":0}"
    );
}

#[test]
fn identifier_text_agrees_with_uuid_crate() {
    for v in [0u128, 1, 0x0123456789abcdef0123456789abcdef, u128::MAX, 0xdeadbeef << 64] {
        let c = AccessClaim { id: v, name: String::new(), role_id: None, exp: 5 };
        let expected = format!(
            "{{\"id\":\"{}\",\"name\":\"\",\"role_id\":null,\"exp\":5}}",
            uuid::Uuid::from_u128(v)
        );
        assert_eq!(c.to_json(), expected);
    }
}

#[test]
fn string_escapes_agree_with_serde_json() {
    let name = "tab\there \\ slash / quote \" bell \u{7} del \u{7f} é 日本";
    let c = RefreshClaim { sub: name.to_string(), exp: 42 };
    let expected = format!("{{\"sub\":{},\"exp\":42}}", serde_json::to_string(name).unwrap());
    assert_eq!(c.to_json(), expected);
}

#[test]
fn refresh_claim_json() {
    let c = RefreshClaim { sub: "alice".to_string(), exp: 18446744073709551615usize };
    assert_eq!(c.to_json(), "{\"sub\":\"alice\",\"exp\":18446744073709551615}");
}

#[test]
fn claims_for_user() {
    let u = user(Some(7));
    let a = AccessClaim::for_user(&u, 99);
    assert_eq!(a, AccessClaim { id: u.id, name: "alice".to_string(), role_id: Some(7), exp: 99 });
    let r = RefreshClaim::for_user(&u, 100);
    assert_eq!(r, RefreshClaim { sub: "alice".to_string(), exp: 100 });
}

#[test]
fn encoded_tokens_decode_to_the_claims() {
    let now = now_unix_secs();
    let t = encode_tokens(&user(Some(5)), SECRET, 900, 2_592_000, now).unwrap();
    let key = jsonwebtoken::DecodingKey::from_secret(SECRET.as_bytes());
    let v = jsonwebtoken::Validation::default();
    let access = jsonwebtoken::decode::<serde_json::Value>(&t.access_token, &key, &v).unwrap().claims;
    assert_eq!(access["id"], "67e55044-10b1-426f-9247-bb680e5fe0c8");
    assert_eq!(access["name"], "alice");
    assert_eq!(access["role_id"], "00000000-0000-0000-0000-000000000005");
    assert_eq!(access["exp"], now + 900);
    let refresh = jsonwebtoken::decode::<serde_json::Value>(&t.refresh_token, &key, &v).unwrap().claims;
    assert_eq!(refresh["sub"], "alice");
    assert_eq!(refresh["exp"], now + 2_592_000);
}

#[test]
fn tokens_are_signed_with_the_secret() {
    let now = now_unix_secs();
    let t = encode_tokens(&user(None), SECRET, 60, 60, now).unwrap();
    let other = jsonwebtoken::DecodingKey::from_secret(b"another secret, also long enough!");
    let v = jsonwebtoken::Validation::default();
    assert!(jsonwebtoken::decode::<serde_json::Value>(&t.access_token, &other, &v).is_err());
}

#[test]
fn same_time_same_tokens() {
    let a = encode_tokens(&user(None), SECRET, 10, 20, 1000).unwrap();
    let b = encode_tokens(&user(None), SECRET, 10, 20, 1000).unwrap();
    assert_eq!(a, b);
    let c = encode_tokens(&user(None), SECRET, 10, 20, 1001).unwrap();
    assert_ne!(a.access_token, c.access_token);
}

#[test]
fn pair_tokens_reports_first_failure() {
    match pair_tokens(Err("InvalidToken".to_string()), Err("ExpiredSignature".to_string())) {
        Err(e) => assert_eq!(e, JwtError::Jwt("InvalidToken".to_string())),
        _ => panic!("expected an error"),
    }
    match pair_tokens(Ok("a".to_string()), Err("ExpiredSignature".to_string())) {
        Err(e) => assert_eq!(e, JwtError::Jwt("ExpiredSignature".to_string())),
        _ => panic!("expected an error"),
    }
    match pair_tokens(Ok("a".to_string()), Ok("b".to_string())) {
        Ok(t) => assert_eq!(t, TokenResponse { access_token: "a".to_string(), refresh_token: "b".to_string() }),
        Err(_) => panic!("expected tokens"),
    }
}

#[test]
fn jwt_error_text_has_prefix() {
    let e: jsonwebtoken::errors::Error = jsonwebtoken::errors::ErrorKind::InvalidToken.into();
    assert_eq!(JwtError::Jwt(e.to_string()).to_text(), "jwt: InvalidToken");
}

#[test]
fn clock_reading() {
    assert_eq!(secs_or_zero(None), 0);
    assert_eq!(secs_or_zero(Some(17)), 17);
    assert!(now_unix_secs() > 1_600_000_000);
}

#[test]
fn issued_tokens_read_back_as_their_claims() {
    let now = now_unix_secs();
    let u = user(Some(5));
    let t = encode_tokens(&u, SECRET, 900, 1800, now).unwrap();
    let access = AccessClaim::for_user(&u, (now + 900) as usize).to_json();
    let refresh = RefreshClaim::for_user(&u, (now + 1800) as usize).to_json();
    assert_eq!(decode_claims_text(&t.access_token, SECRET).ok(), Some(access));
    assert_eq!(decode_claims_text(&t.refresh_token, SECRET).ok(), Some(refresh));
}

#[test]
fn reading_checks_secret_and_expiry() {
    let now = now_unix_secs();
    let t = encode_tokens(&user(None), SECRET, 900, 900, now).unwrap();
    match decode_claims_text(&t.access_token, "a different secret of enough length!") {
        Err(e) => assert_eq!(e.to_text(), "jwt: InvalidSignature"),
        _ => panic!("expected a signature error"),
    }
    assert_eq!(check_claims(&t.access_token, "a different secret of enough length!").unwrap_err().to_text(), "jwt: InvalidSignature");
    assert!(check_claims(&t.access_token, SECRET).is_ok());
    // an expired token still reads back (its shape is checked next), and
    // fails only at the last step
    let u = user(None);
    let old = encode_tokens(&u, SECRET, 10, 10, now - 1000).unwrap();
    let text = AccessClaim::for_user(&u, (now - 990) as usize).to_json();
    assert_eq!(decode_claims_text(&old.access_token, SECRET), Ok(text));
    assert_eq!(check_claims(&old.access_token, SECRET), Err(JwtError::Jwt("ExpiredSignature".to_string())));
    assert!(decode_claims_text("not.a.token", SECRET).is_err());
    assert!(check_claims("not.a.token", SECRET).is_err());
    // fewer than two dots is never a token
    assert_eq!(decode_claims_text("nodots", SECRET), Err(JwtError::Jwt("InvalidToken".to_string())));
    assert!(decode_claims_text("one.dot", SECRET).is_err());
    assert!(check_claims("one.dot", SECRET).is_err());
}
