use auth_ms::password::{hash_password, verify_password};

#[test]
fn hash_then_verify_ok() {
    let h = hash_password("hunter2").unwrap();
    assert!(verify_password(&h, "hunter2").is_ok());
}

#[test]
fn verify_rejects_wrong_password() {
    let h = hash_password("hunter2").unwrap();
    assert!(verify_password(&h, "wrong").is_err());
}

#[test]
fn verify_rejects_malformed_hash() {
    assert!(verify_password("not a phc string", "hunter2").is_err());
    assert!(verify_password("", "").is_err());
    let h = hash_password("hunter2").unwrap();
    assert!(verify_password(&h[1..], "hunter2").is_err());
}

#[test]
fn hashes_are_salted() {
    let a = hash_password("hunter2").unwrap();
    let b = hash_password("hunter2").unwrap();
    assert_ne!(a, b);
    assert!(a.starts_with("$argon2id$"));
}

#[test]
fn hashes_use_the_default_parameters() {
    for p in ["", "hunter2", "pässwörd"] {
        let h = hash_password(p).unwrap();
        assert!(h.starts_with("$argon2id$v=19$m=19456,t=2,p=1$"), "{h}");
        assert!(verify_password(&h, p).is_ok());
    }
}
