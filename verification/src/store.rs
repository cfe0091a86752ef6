//! Decisions on the user and role store's answers: deletions, listings,
//! and how a failed store operation reaches the caller.

use vstd::prelude::*;
use crate::error::{DbError, ServiceError};
use crate::models::{UserDto, UserModel};
use crate::pagination::List;

verus! {

/// The outcome of a deletion that removed `rows_deleted` rows: no row
/// removed means nothing matched.
pub fn deletion_result(rows_deleted: usize) -> (r: Result<(), DbError>)
    ensures
        rows_deleted == 0 ==> r == Err::<(), DbError>(DbError::NotFound),
        rows_deleted != 0 ==> r is Ok,
{
    if rows_deleted == 0 {
        Err(DbError::NotFound)
    } else {
        Ok(())
    }
}

/// A store answer as the services hand it on: its value, or the service
/// error of its failure.
pub fn service_result<T>(r: Result<T, DbError>) -> (s: Result<T, ServiceError>)
    ensures
        match r {
            Ok(v) => s == Ok::<T, ServiceError>(v),
            Err(d) => s matches Err(e) && e.is_from_db(d),
        },
{
    match r {
        Ok(v) => Ok(v),
        Err(d) => Err(ServiceError::from_db(d)),
    }
}

/// The user the store gave back, shown without its password hash.
pub fn user_dto_result(r: Result<UserModel, DbError>) -> (s: Result<UserDto, ServiceError>)
    ensures
        match r {
            Ok(u) => s == Ok::<UserDto, ServiceError>(UserDto { id: u.id, name: u.name, role_id: u.role_id }),
            Err(d) => s matches Err(e) && e.is_from_db(d),
        },
{
    match r {
        Ok(u) => Ok(UserDto::from(u)),
        Err(d) => Err(ServiceError::from_db(d)),
    }
}

/// Whether `d` shows `u` without its password hash.
pub open spec fn shows(d: UserDto, u: UserModel) -> bool {
    &&& d.id == u.id
    &&& d.name@ == u.name@
    &&& d.role_id == u.role_id
}

/// A page of users as the service shows it: the same listing size, each
/// user without its password hash, in the same order.
pub fn users_page(list: List<UserModel>) -> (r: List<UserDto>)
    ensures
        r.pagination == list.pagination,
        r.items@.len() == list.items@.len(),
        forall|i: int| 0 <= i < r.items@.len() ==> shows(#[trigger] r.items@[i], list.items@[i]),
{
    let mut items: Vec<UserDto> = Vec::new();
    let n = list.items.len();
    let mut i: usize = 0;
    while i < n
        invariant
            n == list.items@.len(),
            i <= n,
            items@.len() == i,
            forall|k: int| 0 <= k < i ==> shows(#[trigger] items@[k], list.items@[k]),
        decreases n - i,
    {
        let u = &list.items[i];
        items.push(UserDto { id: u.id, name: u.name.clone(), role_id: u.role_id });
        i = i + 1;
    }
    List { pagination: list.pagination, items }
}

} // verus!
