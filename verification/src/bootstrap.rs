//! First-start bootstrap: make sure an `admin` role and an `admin` user
//! exist, creating each only when its table is empty.
//!
//! The caller runs the store: it starts the bootstrap, performs each
//! action it is given and hands back the store's answer, until the
//! bootstrap finishes.

use vstd::prelude::*;
use vstd::string::*;
use crate::models::{CreateUserEntity, NewRole};
use crate::password::{argon2_accepts, hash_password, hashable, is_default_hash, password_error_text};

verus! {

/// Where the bootstrap stands: which answer of the store it waits for.
#[derive(Debug, Clone, Copy, PartialEq, Eq, Structural)]
pub enum Phase {
    Start,
    RoleCount,
    RoleInsert,
    UserCount,
    RoleLookup,
    UserInsert,
    Finished,
}

/// What the caller does next against the store, or how the bootstrap ended.
#[derive(Debug)]
pub enum BootstrapAction {
    /// Count the roles.
    CountRoles,
    /// Insert this role.
    InsertRole(NewRole),
    /// Count the users.
    CountUsers,
    /// Look up the identifier of the role of this name.
    FindRoleId(String),
    /// Insert this user.
    InsertUser(CreateUserEntity),
    /// Nothing more to do.
    Finish(BootstrapEnd),
}

/// How the bootstrap ended.
#[derive(Debug, Clone, PartialEq, Eq)]
pub enum BootstrapEnd {
    /// Users exist already: no user was created.
    UsersPresent,
    /// The admin user was created, with the configured initial password
    /// (`true`) or the default one.
    AdminCreated { custom_password: bool },
    /// Inserting the admin role failed with this error text.
    RoleInsertFailed(String),
    /// The admin role could not be found with this error text.
    RoleLookupFailed(String),
    /// Hashing the admin password failed with this error text.
    HashFailed(String),
    /// Inserting the admin user failed with this error text.
    UserInsertFailed(String),
}

/// An answer of the store.
#[derive(Debug, PartialEq, Eq)]
pub enum BootstrapEvent {
    /// The result of a count, `None` when the count failed.
    Count(Option<i64>),
    /// The result of an insert, with the error text of a failure.
    Written(Result<(), String>),
    /// The result of the role lookup, with the error text of a failure.
    RoleId(Result<u128, String>),
}

/// The name of the role and of the user the bootstrap creates.
pub open spec fn admin_name() -> Seq<char> {
    "admin"@
}

/// The password of the admin user when none is configured.
pub open spec fn default_admin_password() -> Seq<char> {
    "admin123"@
}

/// The state of a bootstrap run.
#[derive(Debug)]
pub struct Bootstrap {
    pub phase: Phase,
    pub initial_password: Option<String>,
}

/// A failed count counts as zero.
pub open spec fn count_or_zero(c: Option<i64>) -> i64 {
    match c {
        Some(n) => n,
        None => 0,
    }
}

impl Bootstrap {
    /// A bootstrap that has not started, creating the admin user with
    /// `initial_password` or, without one, the default password.
    pub fn new(initial_password: Option<String>) -> (b: Bootstrap)
        ensures
            b.phase == Phase::Start,
            b.initial_password == initial_password,
    {
        Bootstrap { phase: Phase::Start, initial_password }
    }

    /// The password the admin user is created with.
    pub open spec fn admin_password(&self) -> Seq<char> {
        match self.initial_password {
            Some(p) => p@,
            None => default_admin_password(),
        }
    }

    /// Whether the bootstrap, in its phase, waits for an answer of `event`'s kind.
    pub open spec fn expects(&self, event: BootstrapEvent) -> bool {
        match self.phase {
            Phase::RoleCount | Phase::UserCount => event is Count,
            Phase::RoleInsert | Phase::UserInsert => event is Written,
            Phase::RoleLookup => event is RoleId,
            _ => false,
        }
    }

    /// One step: from the state `self` and the store's answer `event`, the
    /// action `action` and the next state `next`.
    pub open spec fn step_spec(self, event: BootstrapEvent, action: BootstrapAction, next: Bootstrap) -> bool {
        &&& next.initial_password == self.initial_password
        &&& match (self.phase, event) {
            (Phase::RoleCount, BootstrapEvent::Count(c)) => if count_or_zero(c) == 0 {
                &&& action matches BootstrapAction::InsertRole(r) && r.name@ == admin_name()
                &&& next.phase == Phase::RoleInsert
            } else {
                &&& action is CountUsers
                &&& next.phase == Phase::UserCount
            },
            (Phase::RoleInsert, BootstrapEvent::Written(w)) => match w {
                Ok(_) => action is CountUsers && next.phase == Phase::UserCount,
                Err(e) => action == BootstrapAction::Finish(BootstrapEnd::RoleInsertFailed(e))
                    && next.phase == Phase::Finished,
            },
            (Phase::UserCount, BootstrapEvent::Count(c)) => if count_or_zero(c) == 0 {
                &&& action matches BootstrapAction::FindRoleId(n) && n@ == admin_name()
                &&& next.phase == Phase::RoleLookup
            } else {
                &&& action == BootstrapAction::Finish(BootstrapEnd::UsersPresent)
                &&& next.phase == Phase::Finished
            },
            (Phase::RoleLookup, BootstrapEvent::RoleId(id)) => match id {
                Err(e) => action == BootstrapAction::Finish(BootstrapEnd::RoleLookupFailed(e))
                    && next.phase == Phase::Finished,
                Ok(role_id) => if hashable(self.admin_password()) {
                    &&& action matches BootstrapAction::InsertUser(u) && u.name@ == admin_name()
                        && u.role_id == Some(role_id) && argon2_accepts(
                        u.password_hash@,
                        self.admin_password(),
                    ) && is_default_hash(u.password_hash@)
                    &&& next.phase == Phase::UserInsert
                } else {
                    &&& action matches BootstrapAction::Finish(BootstrapEnd::HashFailed(_))
                    &&& next.phase == Phase::Finished
                },
            },
            (Phase::UserInsert, BootstrapEvent::Written(w)) => match w {
                Ok(_) => action == BootstrapAction::Finish(
                    BootstrapEnd::AdminCreated { custom_password: self.initial_password is Some },
                ) && next.phase == Phase::Finished,
                Err(e) => action == BootstrapAction::Finish(BootstrapEnd::UserInsertFailed(e))
                    && next.phase == Phase::Finished,
            },
            _ => false,
        }
    }

    /// Starts the bootstrap: the roles are counted first.
    pub fn start(&mut self) -> (action: BootstrapAction)
        requires
            old(self).phase == Phase::Start,
        ensures
            action is CountRoles,
            final(self).phase == Phase::RoleCount,
            final(self).initial_password == old(self).initial_password,
    {
        self.phase = Phase::RoleCount;
        BootstrapAction::CountRoles
    }

    /// Takes the store's answer to the last action and gives the next one.
    pub fn step(&mut self, event: BootstrapEvent) -> (action: BootstrapAction)
        requires
            old(self).expects(event),
        ensures
            old(self).step_spec(event, action, *final(self)),
    {
        match event {
            BootstrapEvent::Count(c) => {
                let n = match c {
                    Some(n) => n,
                    None => 0,
                };
                if self.phase == Phase::RoleCount {
                    if n == 0 {
                        self.phase = Phase::RoleInsert;
                        BootstrapAction::InsertRole(NewRole { name: String::from_str("admin") })
                    } else {
                        self.phase = Phase::UserCount;
                        BootstrapAction::CountUsers
                    }
                } else {
                    if n == 0 {
                        self.phase = Phase::RoleLookup;
                        BootstrapAction::FindRoleId(String::from_str("admin"))
                    } else {
                        self.phase = Phase::Finished;
                        BootstrapAction::Finish(BootstrapEnd::UsersPresent)
                    }
                }
            },
            BootstrapEvent::Written(w) => {
                if self.phase == Phase::RoleInsert {
                    match w {
                        Ok(()) => {
                            self.phase = Phase::UserCount;
                            BootstrapAction::CountUsers
                        },
                        Err(e) => {
                            self.phase = Phase::Finished;
                            BootstrapAction::Finish(BootstrapEnd::RoleInsertFailed(e))
                        },
                    }
                } else {
                    self.phase = Phase::Finished;
                    match w {
                        Ok(()) => BootstrapAction::Finish(
                            BootstrapEnd::AdminCreated { custom_password: self.initial_password.is_some() },
                        ),
                        Err(e) => BootstrapAction::Finish(BootstrapEnd::UserInsertFailed(e)),
                    }
                }
            },
            BootstrapEvent::RoleId(id) => {
                match id {
                    Err(e) => {
                        self.phase = Phase::Finished;
                        BootstrapAction::Finish(BootstrapEnd::RoleLookupFailed(e))
                    },
                    Ok(role_id) => {
                        let hashed = match &self.initial_password {
                            Some(p) => hash_password(p.as_str()),
                            None => hash_password("admin123"),
                        };
                        match hashed {
                            Err(e) => {
                                self.phase = Phase::Finished;
                                BootstrapAction::Finish(BootstrapEnd::HashFailed(password_error_text(&e)))
                            },
                            Ok(h) => {
                                self.phase = Phase::UserInsert;
                                BootstrapAction::InsertUser(CreateUserEntity {
                                    name: String::from_str("admin"),
                                    role_id: Some(role_id),
                                    password_hash: h,
                                })
                            },
                        }
                    },
                }
            },
        }
    }
}

} // verus!
