//! Plain value types shared by the session core.

use vstd::prelude::*;

verus! {

/// Stable identifier of a user account; this core compares it for equality
/// only and attaches no further meaning to it.
#[derive(Clone, Copy, PartialEq, Eq, Structural, Debug)]
pub struct UserId(pub u64);

/// Opaque bearer credential identifying a live session. The payload is
/// drawn from a cryptographically secure random source; it carries no
/// semantic content and serves only as a key into the session store.
#[derive(Clone, Copy, PartialEq, Eq, Structural, Debug)]
pub struct AccessToken(pub u64);

/// Identifier of a submission, produced by the external database service;
/// opaque to this core.
#[derive(Clone, Copy, PartialEq, Eq, Structural, Debug)]
pub struct SubId(pub u64);

/// Classification returned at login; the capabilities a session is granted
/// are derived from it once, at creation.
#[derive(Clone, Copy, PartialEq, Eq, Structural, Debug)]
pub enum Role {
    User,
    Admin,
}

/// A capability a session may hold or an operation may require, as an
/// interned identifier.
#[derive(Clone, Copy, PartialEq, Eq, Structural, Debug)]
pub struct Permission(pub u64);

/// Profile snapshot cached per user; treated as an immutable value once
/// cached. Its shape is owned by the external profile service; this core
/// holds only the plain fields it carries through.
#[derive(Clone, Copy, PartialEq, Eq, Structural, Debug)]
pub struct UserInfo {
    pub user_id: UserId,
    pub reputation: u64,
}

/// Capability to list submissions.
pub const PERM_VIEW_SUBMISSIONS: u64 = 1;

/// Capability to administer other accounts.
pub const PERM_MANAGE_USERS: u64 = 2;

pub const MILLIS_PER_DAY: i64 = 86_400_000;

/// Sessions live for 30 days from creation; the expiry is never extended.
pub const SESSION_TTL_MILLIS: i64 = 30 * MILLIS_PER_DAY;

/// The capabilities granted to a session created for `role`.
pub open spec fn spec_role_permissions(role: Role) -> Seq<Permission> {
    match role {
        Role::User => seq![Permission(PERM_VIEW_SUBMISSIONS)],
        Role::Admin => seq![
            Permission(PERM_VIEW_SUBMISSIONS),
            Permission(PERM_MANAGE_USERS),
        ],
    }
}

/// Builds the permission set a session created for `role` is granted.
pub fn role_permissions(role: Role) -> (r: Vec<Permission>)
    ensures
        r@ == spec_role_permissions(role),
{
    match role {
        Role::User => vec![Permission(PERM_VIEW_SUBMISSIONS)],
        Role::Admin => vec![
            Permission(PERM_VIEW_SUBMISSIONS),
            Permission(PERM_MANAGE_USERS),
        ],
    }
}

} // verus!
