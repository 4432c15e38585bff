//! The roles a user of the device can have.
use vstd::prelude::*;
use vstd::string::*;

use crate::text::str_eq;

verus! {

/// A user's role; each role has the permissions of the ones before it.
#[derive(Clone, Copy, Debug, PartialEq, Eq, Structural)]
pub enum Role {
    NoRole,
    User,
    Admin,
}

/// The rank of a role: roles compare as their declaration order.
pub open spec fn role_rank(r: Role) -> int {
    match r {
        Role::NoRole => 0,
        Role::User => 1,
        Role::Admin => 2,
    }
}

pub open spec fn role_text(r: Role) -> Seq<char> {
    match r {
        Role::NoRole => "none"@,
        Role::User => "user"@,
        Role::Admin => "admin"@,
    }
}

pub open spec fn role_message(r: Role) -> Seq<char> {
    match r {
        Role::NoRole => "None"@,
        Role::User => "User"@,
        Role::Admin => "Admin"@,
    }
}

/// A text that names no role.
#[derive(Clone, Copy, Debug, PartialEq, Eq, Structural)]
pub enum RoleParseError {
    VariantNotFound,
}

impl Role {
    pub fn rank(&self) -> (r: u8)
        ensures
            r == role_rank(*self),
    {
        match self {
            Role::NoRole => 0,
            Role::User => 1,
            Role::Admin => 2,
        }
    }

    /// Whether this role has the permissions of `other`: `self >= other`.
    pub fn at_least(&self, other: &Role) -> (r: bool)
        ensures
            r == (role_rank(*self) >= role_rank(*other)),
    {
        self.rank() >= other.rank()
    }

    /// The text of the role, as its `Display` writes it.
    pub fn as_str(&self) -> (r: &'static str)
        ensures
            r@ == role_text(*self),
    {
        match self {
            Role::NoRole => "none",
            Role::User => "user",
            Role::Admin => "admin",
        }
    }

    /// The label of the role.
    pub fn message(&self) -> (r: &'static str)
        ensures
            r@ == role_message(*self),
    {
        match self {
            Role::NoRole => "None",
            Role::User => "User",
            Role::Admin => "Admin",
        }
    }

    /// The role a text names, as its `FromStr` reads it.
    pub fn from_text(s: &str) -> (r: Result<Role, RoleParseError>)
        ensures
            r matches Ok(role) ==> role_text(role) == s@,
            r is Err ==> forall|role: Role| role_text(role) != s@,
    {
        if str_eq(s, "none") {
            Ok(Role::NoRole)
        } else if str_eq(s, "user") {
            Ok(Role::User)
        } else if str_eq(s, "admin") {
            Ok(Role::Admin)
        } else {
            Err(RoleParseError::VariantNotFound)
        }
    }

    /// The role with the given number, as its `TryFromPrimitive` reads it.
    pub fn try_from_primitive(n: u8) -> (r: Option<Role>)
        ensures
            r matches Some(role) ==> role_rank(role) == n,
            r is None <==> n > 2,
    {
        if n == 0 {
            Some(Role::NoRole)
        } else if n == 1 {
            Some(Role::User)
        } else if n == 2 {
            Some(Role::Admin)
        } else {
            None
        }
    }
}

impl Default for Role {
    fn default() -> (r: Self)
        ensures
            r == Role::NoRole,
    {
        Role::NoRole
    }
}

/// A role's number names it back, and so does its text.
pub proof fn law_role_roundtrip(r: Role)
    ensures
        forall|q: Role| role_rank(q) == role_rank(r) ==> q == r,
        forall|q: Role| role_text(q) == role_text(r) ==> q == r,
{
    reveal_strlit("none");
    reveal_strlit("user");
    reveal_strlit("admin");
    assert("none"@ != "user"@ && "none"@ != "admin"@ && "user"@ != "admin"@) by {
        assert("none"@.len() != "admin"@.len());
        assert("user"@.len() != "admin"@.len());
        assert("none"@[0] != "user"@[0]);
    }
}

} // verus!
