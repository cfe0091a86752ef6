use auth_ms::error::{DbError, ServiceError};
use auth_ms::models::{Role, UserDto, UserModel};
use auth_ms::pagination::{List, RequestPagination};
use auth_ms::store::{deletion_result, service_result, user_dto_result, users_page};

#[test]
fn deleting_nothing_is_not_found() {
    assert_eq!(deletion_result(0), Err(DbError::NotFound));
    assert_eq!(deletion_result(1), Ok(()));
    assert_eq!(deletion_result(3), Ok(()));
}

#[test]
fn store_answers_become_service_answers() {
    let r = Role { id: 1, name: "admin".to_string() };
    assert_eq!(service_result(Ok::<Role, DbError>(r.clone())), Ok(r));
    assert_eq!(
        service_result::<Role>(Err(DbError::NotFound)),
        Err(ServiceError::NotFound("Resource not found".to_string()))
    );
}

fn model(id: u128, name: &str) -> UserModel {
    UserModel { id, name: name.to_string(), role_id: Some(id + 1), password_hash: "secret hash".to_string() }
}

#[test]
fn users_are_shown_without_hash() {
    assert_eq!(
        user_dto_result(Ok(model(3, "dave"))),
        Ok(UserDto { id: 3, name: "dave".to_string(), role_id: Some(4) })
    );
    assert_eq!(UserDto::from(model(5, "eve")), UserDto { id: 5, name: "eve".to_string(), role_id: Some(6) });
}

#[test]
fn users_page_keeps_order_and_size() {
    let list = List { pagination: RequestPagination { total_count: 12, total_pages: 6 }, items: vec![model(1, "a"), model(2, "b")] };
    let page = users_page(list);
    assert_eq!(page.pagination, RequestPagination { total_count: 12, total_pages: 6 });
    assert_eq!(
        page.items,
        vec![
            UserDto { id: 1, name: "a".to_string(), role_id: Some(2) },
            UserDto { id: 2, name: "b".to_string(), role_id: Some(3) }
        ]
    );
}
