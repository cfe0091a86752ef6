use auth_ms::bootstrap::{Bootstrap, BootstrapAction, BootstrapEnd, BootstrapEvent, Phase};
use auth_ms::password::verify_password;

#[test]
fn empty_store_gets_admin_role_and_user() {
    let mut b = Bootstrap::new(None);
    assert!(matches!(b.start(), BootstrapAction::CountRoles));
    match b.step(BootstrapEvent::Count(Some(0))) {
        BootstrapAction::InsertRole(r) => assert_eq!(r.name, "admin"),
        other => panic!("unexpected {other:?}"),
    }
    assert!(matches!(b.step(BootstrapEvent::Written(Ok(()))), BootstrapAction::CountUsers));
    match b.step(BootstrapEvent::Count(Some(0))) {
        BootstrapAction::FindRoleId(n) => assert_eq!(n, "admin"),
        other => panic!("unexpected {other:?}"),
    }
    match b.step(BootstrapEvent::RoleId(Ok(77))) {
        BootstrapAction::InsertUser(u) => {
            assert_eq!(u.name, "admin");
            assert_eq!(u.role_id, Some(77));
            assert!(verify_password(&u.password_hash, "admin123").is_ok());
            assert!(u.password_hash.starts_with("$argon2id$v=19$m=19456,t=2,p=1$"));
        }
        other => panic!("unexpected {other:?}"),
    }
    match b.step(BootstrapEvent::Written(Ok(()))) {
        BootstrapAction::Finish(e) => assert_eq!(e, BootstrapEnd::AdminCreated { custom_password: false }),
        other => panic!("unexpected {other:?}"),
    }
    assert_eq!(b.phase, Phase::Finished);
}

#[test]
fn configured_password_is_used() {
    let mut b = Bootstrap::new(Some("s3cret".to_string()));
    b.start();
    b.step(BootstrapEvent::Count(Some(1)));
    b.step(BootstrapEvent::Count(None));
    match b.step(BootstrapEvent::RoleId(Ok(1))) {
        BootstrapAction::InsertUser(u) => {
            assert!(verify_password(&u.password_hash, "s3cret").is_ok());
            assert!(verify_password(&u.password_hash, "admin123").is_err());
        }
        other => panic!("unexpected {other:?}"),
    }
    match b.step(BootstrapEvent::Written(Ok(()))) {
        BootstrapAction::Finish(e) => assert_eq!(e, BootstrapEnd::AdminCreated { custom_password: true }),
        other => panic!("unexpected {other:?}"),
    }
}

#[test]
fn initialized_store_is_left_alone() {
    let mut b = Bootstrap::new(None);
    b.start();
    assert!(matches!(b.step(BootstrapEvent::Count(Some(2))), BootstrapAction::CountUsers));
    match b.step(BootstrapEvent::Count(Some(5))) {
        BootstrapAction::Finish(e) => assert_eq!(e, BootstrapEnd::UsersPresent),
        other => panic!("unexpected {other:?}"),
    }
}

#[test]
fn failed_count_counts_as_zero() {
    let mut b = Bootstrap::new(None);
    b.start();
    assert!(matches!(b.step(BootstrapEvent::Count(None)), BootstrapAction::InsertRole(_)));
}

#[test]
fn failures_stop_the_bootstrap() {
    let mut b = Bootstrap::new(None);
    b.start();
    b.step(BootstrapEvent::Count(Some(0)));
    match b.step(BootstrapEvent::Written(Err("duplicate".to_string()))) {
        BootstrapAction::Finish(e) => assert_eq!(e, BootstrapEnd::RoleInsertFailed("duplicate".to_string())),
        other => panic!("unexpected {other:?}"),
    }
    let mut b = Bootstrap::new(None);
    b.start();
    b.step(BootstrapEvent::Count(Some(1)));
    b.step(BootstrapEvent::Count(Some(0)));
    match b.step(BootstrapEvent::RoleId(Err("no rows".to_string()))) {
        BootstrapAction::Finish(e) => assert_eq!(e, BootstrapEnd::RoleLookupFailed("no rows".to_string())),
        other => panic!("unexpected {other:?}"),
    }
    let mut b = Bootstrap::new(None);
    b.start();
    b.step(BootstrapEvent::Count(Some(1)));
    b.step(BootstrapEvent::Count(Some(0)));
    b.step(BootstrapEvent::RoleId(Ok(3)));
    match b.step(BootstrapEvent::Written(Err("boom".to_string()))) {
        BootstrapAction::Finish(e) => assert_eq!(e, BootstrapEnd::UserInsertFailed("boom".to_string())),
        other => panic!("unexpected {other:?}"),
    }
}
