//! Roles and users as the store holds them and as the service hands them out.
//!
//! Identifiers are the 128-bit values of the store's UUIDs.

use vstd::prelude::*;

verus! {

/// A stored role.
#[derive(Debug, Clone, PartialEq, Eq)]
pub struct Role {
    pub id: u128,
    pub name: String,
}

/// The fields of a role to be created.
#[derive(Debug, Clone, PartialEq, Eq)]
pub struct NewRole {
    pub name: String,
}

/// The fields of a role to be replaced.
#[derive(Debug, Clone, PartialEq, Eq)]
pub struct UpdateRole {
    pub name: String,
}

/// A stored user, password hash included.
#[derive(Debug, Clone, PartialEq, Eq)]
pub struct UserModel {
    pub id: u128,
    pub name: String,
    pub role_id: Option<u128>,
    pub password_hash: String,
}

/// A registration request: the password is still in clear.
#[derive(Debug, Clone, PartialEq, Eq)]
pub struct CreateUserDto {
    pub name: String,
    pub role_id: Option<u128>,
    pub password: String,
}

/// The row to insert for a new user: the password is hashed.
#[derive(Debug, Clone, PartialEq, Eq)]
pub struct CreateUserEntity {
    pub name: String,
    pub role_id: Option<u128>,
    pub password_hash: String,
}

/// The fields of a user to be replaced.
#[derive(Debug, Clone, PartialEq, Eq)]
pub struct UpdateUserDto {
    pub name: String,
    pub role_id: Option<u128>,
}

/// A user as the service shows it: never with the password hash.
#[derive(Debug, Clone, PartialEq, Eq)]
pub struct UserDto {
    pub id: u128,
    pub name: String,
    pub role_id: Option<u128>,
}

impl From<UserModel> for UserDto {
    fn from(value: UserModel) -> (r: UserDto) {
        UserDto { id: value.id, name: value.name, role_id: value.role_id }
    }
}

impl vstd::std_specs::convert::FromSpecImpl<UserModel> for UserDto {
    open spec fn obeys_from_spec() -> bool {
        true
    }

    open spec fn from_spec(v: UserModel) -> UserDto {
        UserDto { id: v.id, name: v.name, role_id: v.role_id }
    }
}

} // verus!
