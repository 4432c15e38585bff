//! Authentication state and role based access: which view an access-guarded part
//! of the screen shows.
use vstd::prelude::*;
use vstd::string::*;

use super::dto::{role_rank, role_text, Role};

verus! {

/// What a user entered to log in.
pub struct Credentials {
    pub username: String,
    pub password: String,
}

impl Credentials {
    pub fn duplicate(&self) -> (r: Self)
        ensures
            r.username@ == self.username@,
            r.password@ == self.password@,
    {
        Credentials { username: self.username.clone(), password: self.password.clone() }
    }
}

impl Default for Credentials {
    fn default() -> (r: Self)
        ensures
            r.username@ == Seq::<char>::empty(),
            r.password@ == Seq::<char>::empty(),
    {
        Credentials { username: String::new(), password: String::new() }
    }
}

/// Where authentication stands.
pub enum RoleState {
    Authenticating(Credentials),
    AuthenticationFailed(Credentials),
    Role(Role),
    LoggingOut(Role),
    LoggedOut,
}

/// The authentication state of the application, once it is known.
pub struct RoleStore(pub Option<RoleState>);

impl RoleStore {
    /// The store after a new authentication state is dispatched to it.
    pub fn apply(self, state: RoleState) -> (r: RoleStore)
        ensures
            r.0 == Some(state),
    {
        RoleStore(Some(state))
    }
}

impl Default for RoleStore {
    fn default() -> (r: Self)
        ensures
            r.0 is None,
    {
        RoleStore(None)
    }
}

/// What an access-guarded part of the screen shows.
pub enum RoleView {
    /// The guarded content.
    Content,
    /// A loader, while the role is not known.
    Loading,
    /// A login dialog, with the credentials to show and the state of the attempt.
    Login { credentials: Credentials, authenticating: bool, auth_failed: bool },
    /// A notice that the role does not suffice.
    NoPermissions,
    /// Nothing.
    Hidden,
}

/// The guarded content shows: the state holds a role at least the required one.
pub open spec fn shows_content(state: Option<RoleState>, required: Role) -> bool {
    state matches Some(RoleState::Role(role)) && role_rank(role) >= role_rank(required)
}

/// Access grows with the role and shrinks with the requirement: content that shows to
/// a role shows to every higher role, and under every lower requirement.
pub proof fn law_access_monotone(role: Role, higher: Role, required: Role, lower: Role)
    requires
        shows_content(Some(RoleState::Role(role)), required),
        role_rank(higher) >= role_rank(role),
        role_rank(lower) <= role_rank(required),
    ensures
        shows_content(Some(RoleState::Role(higher)), required),
        shows_content(Some(RoleState::Role(role)), lower),
{
}

/// Which view a guarded part shows: the content when the role suffices; otherwise,
/// if it asks for authentication, a loader while the state is unknown, a login
/// dialog while authenticating, after a failed attempt or without a role, and a
/// notice else; nothing if it does not ask for authentication.
pub fn role_view(state: &Option<RoleState>, required: Role, auth: bool) -> (r: RoleView)
    ensures
        r is Content <==> shows_content(*state, required),
        match *state {
            Some(RoleState::Role(role)) if role_rank(role) >= role_rank(required) => r is Content,
            None => if auth {
                r is Loading
            } else {
                r is Hidden
            },
            Some(RoleState::Authenticating(c)) => if auth {
                r matches RoleView::Login { credentials, authenticating, auth_failed }
                    && credentials.username@ == c.username@ && credentials.password@
                    == c.password@ && authenticating && !auth_failed
            } else {
                r is Hidden
            },
            Some(RoleState::AuthenticationFailed(c)) => if auth {
                r matches RoleView::Login { credentials, authenticating, auth_failed }
                    && credentials.username@ == c.username@ && credentials.password@
                    == c.password@ && !authenticating && auth_failed
            } else {
                r is Hidden
            },
            Some(RoleState::Role(Role::NoRole)) => if auth {
                r matches RoleView::Login { credentials, authenticating, auth_failed }
                    && credentials.username@.len() == 0 && credentials.password@.len() == 0
                    && !authenticating && !auth_failed
            } else {
                r is Hidden
            },
            _ => if auth {
                r is NoPermissions
            } else {
                r is Hidden
            },
        },
{
    match state {
        Some(RoleState::Role(role)) if role.at_least(&required) => RoleView::Content,
        None => if auth {
            RoleView::Loading
        } else {
            RoleView::Hidden
        },
        Some(RoleState::Authenticating(c)) => if auth {
            RoleView::Login { credentials: c.duplicate(), authenticating: true, auth_failed: false }
        } else {
            RoleView::Hidden
        },
        Some(RoleState::AuthenticationFailed(c)) => if auth {
            RoleView::Login { credentials: c.duplicate(), authenticating: false, auth_failed: true }
        } else {
            RoleView::Hidden
        },
        Some(RoleState::Role(Role::NoRole)) => if auth {
            RoleView::Login {
                credentials: Credentials::default(),
                authenticating: false,
                auth_failed: false,
            }
        } else {
            RoleView::Hidden
        },
        _ => if auth {
            RoleView::NoPermissions
        } else {
            RoleView::Hidden
        },
    }
}

/// The role a logout item logs out of: the current role, once one is known.
pub fn logout_role(state: &Option<RoleState>) -> (r: Option<Role>)
    ensures
        match *state {
            Some(RoleState::Role(role)) => r == Some(role),
            _ => r is None,
        },
{
    match state {
        Some(RoleState::Role(role)) => Some(*role),
        _ => None,
    }
}

/// The role an authentication status page reports: the current one, once one is known.
pub fn current_role(state: &Option<RoleState>) -> (r: Option<Role>)
    ensures
        match *state {
            Some(RoleState::Role(role)) => r == Some(role),
            _ => r is None,
        },
{
    logout_role(state)
}

/// What an authentication status page shows.
#[derive(Clone, Copy, Debug, PartialEq, Eq, Structural)]
pub enum AuthStateView {
    Loading,
    LoggedOut,
    LoggedIn(Role),
}

/// The status page shows a loader while the role is unknown, that the user is
/// logged out without a role, and the role otherwise.
pub fn auth_state_view(role: Option<Role>) -> (r: AuthStateView)
    ensures
        match role {
            None => r == AuthStateView::Loading,
            Some(Role::NoRole) => r == AuthStateView::LoggedOut,
            Some(x) => r == AuthStateView::LoggedIn(x),
        },
{
    match role {
        Some(Role::NoRole) => AuthStateView::LoggedOut,
        None => AuthStateView::Loading,
        Some(x) => AuthStateView::LoggedIn(x),
    }
}

/// The text telling the user the role they are logged in as.
pub fn logged_in_message(role: Role) -> (r: String)
    ensures
        r@ == "You are logged in as "@ + role_text(role) + "."@,
{
    let mut r = String::from_str("You are logged in as ");
    r.append(role.as_str());
    r.append(".");
    r
}

/// Whether the login dialog hides its failure message: unless the last attempt
/// failed and no new one is under way.
pub fn login_failure_hidden(auth_failed: bool, authenticating: bool) -> (r: bool)
    ensures
        r == (!auth_failed || authenticating),
{
    !auth_failed || authenticating
}

} // verus!
