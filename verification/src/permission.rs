use vstd::prelude::*;

use crate::error::{ApplicationError, ApplicationResult};
use crate::route_info::RouteId;
use crate::text::{owned, str_equals};
use crate::user::UserId;

verus! {

/// What a user may do with a route; each level allows what the ones below allow.
#[derive(Clone, Copy, Debug, PartialEq, Eq, Structural)]
pub enum PermissionType {
    NoAccess,
    Viewer,
    Editor,
    Owner,
}

/// The level of a permission: `NoAccess` < `Viewer` < `Editor` < `Owner`.
pub open spec fn permission_rank(p: PermissionType) -> int {
    match p {
        PermissionType::NoAccess => 0,
        PermissionType::Viewer => 1,
        PermissionType::Editor => 2,
        PermissionType::Owner => 3,
    }
}

/// The name a permission is stored under.
pub open spec fn permission_name(p: PermissionType) -> Seq<char> {
    match p {
        PermissionType::NoAccess => "none"@,
        PermissionType::Viewer => "viewer"@,
        PermissionType::Editor => "editor"@,
        PermissionType::Owner => "owner"@,
    }
}

/// The permission stored under `s`, if any.
pub open spec fn parse_permission(s: Seq<char>) -> Option<PermissionType> {
    if s == "none"@ {
        Some(PermissionType::NoAccess)
    } else if s == "viewer"@ {
        Some(PermissionType::Viewer)
    } else if s == "editor"@ {
        Some(PermissionType::Editor)
    } else if s == "owner"@ {
        Some(PermissionType::Owner)
    } else {
        None
    }
}

impl PermissionType {
    /// The level of the permission, from 0 (`NoAccess`) to 3 (`Owner`).
    pub fn rank(&self) -> (r: u8)
        ensures
            r == permission_rank(*self),
    {
        match self {
            PermissionType::NoAccess => 0,
            PermissionType::Viewer => 1,
            PermissionType::Editor => 2,
            PermissionType::Owner => 3,
        }
    }

    /// Whether this permission allows at most what `other` allows.
    pub fn le(&self, other: &PermissionType) -> (b: bool)
        ensures
            b == (permission_rank(*self) <= permission_rank(*other)),
    {
        self.rank() <= other.rank()
    }

    /// The stored name: `none`, `viewer`, `editor` or `owner`.
    pub fn as_str(&self) -> (s: &'static str)
        ensures
            s@ == permission_name(*self),
    {
        match self {
            PermissionType::NoAccess => "none",
            PermissionType::Viewer => "viewer",
            PermissionType::Editor => "editor",
            PermissionType::Owner => "owner",
        }
    }

    /// The permission stored under `s`, if any.
    pub fn from_str(s: &str) -> (r: Option<PermissionType>)
        ensures
            r == parse_permission(s@),
    {
        if str_equals(s, "none") {
            Some(PermissionType::NoAccess)
        } else if str_equals(s, "viewer") {
            Some(PermissionType::Viewer)
        } else if str_equals(s, "editor") {
            Some(PermissionType::Editor)
        } else if str_equals(s, "owner") {
            Some(PermissionType::Owner)
        } else {
            None
        }
    }
}

/// The permission a user holds on a route.
pub struct Permission {
    pub route_id: RouteId,
    pub user_id: UserId,
    pub permission_type: PermissionType,
}

impl Permission {
    /// The permission of `user_id` on `route_id`.
    pub fn new(route_id: RouteId, user_id: UserId, permission_type: PermissionType) -> (p: Permission)
        ensures
            p.route_id@ == route_id@,
            p.user_id@ == user_id@,
            p.permission_type == permission_type,
    {
        Permission { route_id, user_id, permission_type }
    }
}

/// Lets a user act on a route when the permission they hold (`actual`)
/// allows the one the action needs (`target`); refused otherwise.
pub fn authorize(actual: PermissionType, target: PermissionType) -> (r: ApplicationResult<()>)
    ensures
        r is Ok <==> permission_rank(target) <= permission_rank(actual),
        r matches Err(e) ==> e is AuthorizationError,
{
    if target.le(&actual) {
        Ok(())
    } else {
        Err(ApplicationError::AuthorizationError(owned("The user doesn't have the required permission on the route.")))
    }
}

/// The permission that a user holds on a route, from what is known of it:
/// the owner holds every right; another signed-in user holds what is stored
/// for them (`stored`, looked up by the caller); anyone else may view a public
/// route and nothing more, and nothing at all on a private one.
pub open spec fn resolved_permission(
    owner_id: Seq<char>,
    is_public: bool,
    user_id: Option<Seq<char>>,
    stored: Option<PermissionType>,
) -> PermissionType {
    match user_id {
        Some(u) => if u == owner_id {
            PermissionType::Owner
        } else {
            match stored {
                Some(t) => t,
                None => if is_public { PermissionType::Viewer } else { PermissionType::NoAccess },
            }
        },
        None => if is_public { PermissionType::Viewer } else { PermissionType::NoAccess },
    }
}

/// The id of an optional user, as text.
pub open spec fn user_view(user_id: Option<UserId>) -> Option<Seq<char>> {
    match user_id {
        Some(u) => Some(u@),
        None => None,
    }
}

/// The permission that `user_id` (none for a visitor who is not signed in)
/// holds on a route owned by `owner_id`, given the permission stored for the
/// user on that route, if any.
pub fn find_type(owner_id: &UserId, is_public: bool, user_id: &Option<UserId>, stored: Option<PermissionType>) -> (t: PermissionType)
    ensures
        t == resolved_permission(owner_id@, is_public, user_view(*user_id), stored),
        (user_id matches Some(u) && u@ == owner_id@) ==> t == PermissionType::Owner,
        stored matches Some(s) ==> ((user_id matches Some(u) && u@ != owner_id@) ==> t == s),
{
    let fallback = if is_public { PermissionType::Viewer } else { PermissionType::NoAccess };
    match user_id {
        Some(u) => if u.same_as(owner_id) {
            PermissionType::Owner
        } else {
            match stored {
                Some(t) => t,
                None => fallback,
            }
        },
        None => fallback,
    }
}

/// A signed-in user other than the owner holds exactly the permission
/// stored for them, whether the route is public or private; the owner holds
/// every right whatever is stored; and a stored permission is what decides,
/// for such a user, between two routes that differ only in visibility.
pub proof fn stored_permission_is_held(owner_id: Seq<char>, is_public: bool, user: Seq<char>, stored: PermissionType)
    ensures
        user != owner_id ==> resolved_permission(owner_id, is_public, Some(user), Some(stored)) == stored,
        user != owner_id ==> resolved_permission(owner_id, true, Some(user), Some(stored)) == resolved_permission(
            owner_id,
            false,
            Some(user),
            Some(stored),
        ),
        resolved_permission(owner_id, is_public, Some(owner_id), Some(stored)) == PermissionType::Owner,
{
}

/// The text of a refusal: who (`User <id>`, or `Unauthenticated user`)
/// lacks the permission `target` on route `route_id`, and what they hold.
pub open spec fn authorization_message(
    user: Option<Seq<char>>,
    target: PermissionType,
    route_id: Seq<char>,
    actual: PermissionType,
) -> Seq<char> {
    (match user {
        Some(u) => "User "@ + u,
        None => "Unauthenticated user"@,
    }) + " doesn't have "@ + permission_name(target) + " permission on Route "@ + route_id
        + " (actual permission: "@ + permission_name(actual) + ")."@
}

/// Whether `e` is the refusal that [`authorize_user`] gives when `user_id`
/// lacks `target` on route `route_id`, owned by `owner_id`.
pub open spec fn refused_as(
    e: ApplicationError,
    route_id: Seq<char>,
    owner_id: Seq<char>,
    is_public: bool,
    user_id: Option<UserId>,
    stored: Option<PermissionType>,
    target: PermissionType,
) -> bool {
    match e {
        ApplicationError::AuthorizationError(m) => m@ == authorization_message(
            user_view(user_id),
            target,
            route_id,
            resolved_permission(owner_id, is_public, user_view(user_id), stored),
        ),
        _ => false,
    }
}

/// Lets `user_id` act on route `route_id`, owned by `owner_id`, when the
/// permission they hold there allows `target`; refused otherwise with an
/// authorization error whose text is [`authorization_message`].
pub fn authorize_user(
    route_id: &RouteId,
    owner_id: &UserId,
    is_public: bool,
    user_id: &Option<UserId>,
    stored: Option<PermissionType>,
    target: PermissionType,
) -> (r: ApplicationResult<()>)
    ensures
        r is Ok <==> permission_rank(target) <= permission_rank(
            resolved_permission(owner_id@, is_public, user_view(*user_id), stored),
        ),
        r matches Err(e) ==> e is AuthorizationError,
        r matches Err(ApplicationError::AuthorizationError(m)) ==> m@ == authorization_message(
            user_view(*user_id),
            target,
            route_id@,
            resolved_permission(owner_id@, is_public, user_view(*user_id), stored),
        ),
        r matches Err(e) ==> refused_as(e, route_id@, owner_id@, is_public, *user_id, stored, target),
{
    let actual = find_type(owner_id, is_public, user_id, stored);
    if target.le(&actual) {
        return Ok(());
    }
    let mut msg = match user_id {
        Some(u) => {
            let mut m = owned("User ");
            m.append(u.as_str());
            m
        },
        None => owned("Unauthenticated user"),
    };
    msg.append(" doesn't have ");
    msg.append(target.as_str());
    msg.append(" permission on Route ");
    msg.append(route_id.as_str());
    msg.append(" (actual permission: ");
    msg.append(actual.as_str());
    msg.append(").");
    Err(ApplicationError::AuthorizationError(msg))
}

/// A visitor who is not signed in holds on a route what a signed-in user
/// other than the owner holds when nothing is stored for them.
pub proof fn lemma_visitor_like_unprivileged_user(
    owner_id: Seq<char>,
    is_public: bool,
    user: Seq<char>,
    stored: Option<PermissionType>,
)
    requires
        user != owner_id,
    ensures
        resolved_permission(owner_id, is_public, None, stored) == resolved_permission(
            owner_id,
            is_public,
            Some(user),
            None,
        ),
{
}

/// The owner of a route is allowed every action on it.
pub proof fn lemma_owner_allowed_everything(
    owner_id: Seq<char>,
    is_public: bool,
    stored: Option<PermissionType>,
    target: PermissionType,
)
    ensures
        permission_rank(target) <= permission_rank(resolved_permission(owner_id, is_public, Some(owner_id), stored)),
{
}

/// Each level allows what the levels below it allow: an action allowed to a
/// permission is allowed to every higher one.
pub proof fn lemma_higher_permission_allows_more(lower: PermissionType, higher: PermissionType, target: PermissionType)
    requires
        permission_rank(lower) <= permission_rank(higher),
        permission_rank(target) <= permission_rank(lower),
    ensures
        permission_rank(target) <= permission_rank(higher),
{
}

} // verus!
