//! The edits a user asks for on a route, each allowed only to users who may
//! edit it: the caller authenticates the user and looks up what is stored of
//! their permission; these functions decide and apply.
use vstd::prelude::*;

use crate::coordinate::Coordinate;
use crate::error::ApplicationResult;
use crate::permission::{authorize_user, refused_as, permission_rank, resolved_permission, user_view, Permission, PermissionType};
use crate::responses::{DeletePermissionRequest, UpdatePermissionRequest};
use crate::route::{
    add_point_outcome, move_point_outcome, redo_outcome, remove_point_outcome, undo_outcome, with_op_num, Route,
};
use crate::route_info::{renamed, RouteId, RouteInfo};
use crate::segment::DrawingMode;
use crate::user::UserId;

verus! {

/// Whether `user_id` may edit a route owned by `owner_id`, given what is
/// stored of their permission.
pub open spec fn may_edit(
    owner_id: Seq<char>,
    is_public: bool,
    user_id: Option<UserId>,
    stored: Option<PermissionType>,
) -> bool {
    permission_rank(PermissionType::Editor) <= permission_rank(
        resolved_permission(owner_id, is_public, user_view(user_id), stored),
    )
}

/// Adds a waypoint for `user_id` (see [`Route::add_point`]). Refused with
/// an authorization error, the route unchanged, when the user may not edit it.
pub fn add_point(
    route: &mut Route,
    is_public: bool,
    user_id: &Option<UserId>,
    stored: Option<PermissionType>,
    pos: usize,
    coord: Coordinate,
    mode: DrawingMode,
) -> (r: ApplicationResult<()>)
    ensures
        !may_edit(old(route).info.owner_id@, is_public, *user_id, stored) ==> (r matches Err(e)
            && refused_as(e, old(route).info.id@, old(route).info.owner_id@, is_public, *user_id, stored, PermissionType::Editor)
            && *final(route) == *old(route)),
        may_edit(old(route).info.owner_id@, is_public, *user_id, stored) ==> add_point_outcome(
            *old(route),
            *final(route),
            pos,
            coord,
            mode,
            r,
        ),
{
    let owner = route.info.owner_id.clone();
    let route_id = route.info.id.clone();
    authorize_user(&route_id, &owner, is_public, user_id, stored, PermissionType::Editor)?;
    route.add_point(pos, coord, mode)
}

/// Removes a waypoint for `user_id` (see [`Route::remove_point`]). Refused
/// with an authorization error, the route unchanged, when the user may not
/// edit it.
pub fn remove_point(
    route: &mut Route,
    is_public: bool,
    user_id: &Option<UserId>,
    stored: Option<PermissionType>,
    pos: usize,
    mode: DrawingMode,
) -> (r: ApplicationResult<()>)
    ensures
        !may_edit(old(route).info.owner_id@, is_public, *user_id, stored) ==> (r matches Err(e)
            && refused_as(e, old(route).info.id@, old(route).info.owner_id@, is_public, *user_id, stored, PermissionType::Editor)
            && *final(route) == *old(route)),
        may_edit(old(route).info.owner_id@, is_public, *user_id, stored) ==> remove_point_outcome(
            *old(route),
            *final(route),
            pos,
            mode,
            r,
        ),
{
    let owner = route.info.owner_id.clone();
    let route_id = route.info.id.clone();
    authorize_user(&route_id, &owner, is_public, user_id, stored, PermissionType::Editor)?;
    route.remove_point(pos, mode)
}

/// Moves a waypoint for `user_id` (see [`Route::move_point`]). Refused with
/// an authorization error, the route unchanged, when the user may not edit it.
pub fn move_point(
    route: &mut Route,
    is_public: bool,
    user_id: &Option<UserId>,
    stored: Option<PermissionType>,
    pos: usize,
    coord: Coordinate,
    mode: DrawingMode,
) -> (r: ApplicationResult<()>)
    ensures
        !may_edit(old(route).info.owner_id@, is_public, *user_id, stored) ==> (r matches Err(e)
            && refused_as(e, old(route).info.id@, old(route).info.owner_id@, is_public, *user_id, stored, PermissionType::Editor)
            && *final(route) == *old(route)),
        may_edit(old(route).info.owner_id@, is_public, *user_id, stored) ==> move_point_outcome(
            *old(route),
            *final(route),
            pos,
            coord,
            mode,
            r,
        ),
{
    let owner = route.info.owner_id.clone();
    let route_id = route.info.id.clone();
    authorize_user(&route_id, &owner, is_public, user_id, stored, PermissionType::Editor)?;
    route.move_point(pos, coord, mode)
}

/// Undoes the last applied edit for `user_id` (see [`Route::undo_operation`]).
/// Refused with an authorization error, the route unchanged, when the user
/// may not edit it.
pub fn undo_operation(route: &mut Route, is_public: bool, user_id: &Option<UserId>, stored: Option<PermissionType>) -> (r:
    ApplicationResult<()>)
    requires
        0 < old(route).info.op_num <= old(route).op_list@.len() ==> {
            let op = old(route).op_list@[old(route).info.op_num - 1];
            op.pos + op.new_seg_templates@.len() <= old(route).seg_list.segments@.len()
        },
    ensures
        !may_edit(old(route).info.owner_id@, is_public, *user_id, stored) ==> (r matches Err(e)
            && refused_as(e, old(route).info.id@, old(route).info.owner_id@, is_public, *user_id, stored, PermissionType::Editor)
            && *final(route) == *old(route)),
        may_edit(old(route).info.owner_id@, is_public, *user_id, stored) ==> undo_outcome(*old(route), *final(route), r),
{
    let owner = route.info.owner_id.clone();
    let route_id = route.info.id.clone();
    authorize_user(&route_id, &owner, is_public, user_id, stored, PermissionType::Editor)?;
    route.undo_operation()
}

/// Redoes the first undone edit for `user_id` (see [`Route::redo_operation`]).
/// Refused with an authorization error, the route unchanged, when the user
/// may not edit it.
pub fn redo_operation(route: &mut Route, is_public: bool, user_id: &Option<UserId>, stored: Option<PermissionType>) -> (r:
    ApplicationResult<()>)
    requires
        old(route).info.op_num < old(route).op_list@.len() ==> {
            let op = old(route).op_list@[old(route).info.op_num as int];
            op.pos + op.org_seg_templates@.len() <= old(route).seg_list.segments@.len()
        },
    ensures
        !may_edit(old(route).info.owner_id@, is_public, *user_id, stored) ==> (r matches Err(e)
            && refused_as(e, old(route).info.id@, old(route).info.owner_id@, is_public, *user_id, stored, PermissionType::Editor)
            && *final(route) == *old(route)),
        may_edit(old(route).info.owner_id@, is_public, *user_id, stored) ==> redo_outcome(*old(route), *final(route), r),
{
    let owner = route.info.owner_id.clone();
    let route_id = route.info.id.clone();
    authorize_user(&route_id, &owner, is_public, user_id, stored, PermissionType::Editor)?;
    route.redo_operation()
}

/// Renames a route for `user_id`. Refused with an authorization error, the
/// information unchanged, when the user may not edit the route.
pub fn rename(
    info: &mut RouteInfo,
    is_public: bool,
    user_id: &Option<UserId>,
    stored: Option<PermissionType>,
    name: &str,
) -> (r: ApplicationResult<()>)
    ensures
        r is Ok <==> may_edit(old(info).owner_id@, is_public, *user_id, stored),
        r matches Err(e) ==> refused_as(e, old(info).id@, old(info).owner_id@, is_public, *user_id, stored, PermissionType::Editor)
            && *final(info) == *old(info),
        r is Ok ==> renamed(*old(info), *final(info), name@),
{
    let owner = info.owner_id.clone();
    let route_id = info.id.clone();
    authorize_user(&route_id, &owner, is_public, user_id, stored, PermissionType::Editor)?;
    info.rename(name);
    Ok(())
}

/// The route cleared for `user_id`: no edits and no segments, its
/// information counting no applied edit. Refused with an authorization error
/// when the user may not edit it.
pub fn clear_route(info: RouteInfo, is_public: bool, user_id: &Option<UserId>, stored: Option<PermissionType>) -> (r:
    ApplicationResult<Route>)
    ensures
        r is Ok <==> may_edit(info.owner_id@, is_public, *user_id, stored),
        r matches Err(e) ==> refused_as(e, info.id@, info.owner_id@, is_public, *user_id, stored, PermissionType::Editor),
        r matches Ok(route) ==> route.info == with_op_num(info, 0) && route.op_list@.len() == 0
            && route.seg_list.segments@.len() == 0,
{
    let owner = info.owner_id.clone();
    let route_id = info.id.clone();
    authorize_user(&route_id, &owner, is_public, user_id, stored, PermissionType::Editor)?;
    Ok(Route::cleared(info))
}

/// Whether `user_id` owns a route owned by `owner_id`, by what they hold on it.
pub open spec fn may_own(owner_id: Seq<char>, is_public: bool, user_id: Option<UserId>, stored: Option<PermissionType>) -> bool {
    permission_rank(PermissionType::Owner) <= permission_rank(
        resolved_permission(owner_id, is_public, user_view(user_id), stored),
    )
}

/// The permission to store when `user_id` gives `req.user_id` the level
/// `req.permission_type` on the route of `info`; only the route's owner may.
pub fn update_permission(
    info: &RouteInfo,
    is_public: bool,
    user_id: &Option<UserId>,
    stored: Option<PermissionType>,
    req: &UpdatePermissionRequest,
) -> (r: ApplicationResult<Permission>)
    ensures
        r is Ok <==> may_own(info.owner_id@, is_public, *user_id, stored),
        r matches Err(e) ==> refused_as(e, info.id@, info.owner_id@, is_public, *user_id, stored, PermissionType::Owner),
        r matches Ok(p) ==> p.route_id@ == info.id@ && p.user_id@ == req.user_id@ && p.permission_type
            == req.permission_type,
{
    let owner = info.owner_id.clone();
    let route_id = info.id.clone();
    authorize_user(&route_id, &owner, is_public, user_id, stored, PermissionType::Owner)?;
    Ok(Permission::new(info.id.clone(), req.user_id.clone(), req.permission_type))
}

/// The route id and user whose stored permission is to be deleted when
/// `user_id` asks to take away `req.user_id`'s permission on the route of
/// `info`; only the route's owner may.
pub fn delete_permission(
    info: &RouteInfo,
    is_public: bool,
    user_id: &Option<UserId>,
    stored: Option<PermissionType>,
    req: &DeletePermissionRequest,
) -> (r: ApplicationResult<(RouteId, UserId)>)
    ensures
        r is Ok <==> may_own(info.owner_id@, is_public, *user_id, stored),
        r matches Err(e) ==> refused_as(e, info.id@, info.owner_id@, is_public, *user_id, stored, PermissionType::Owner),
        r matches Ok((route_id, target)) ==> route_id@ == info.id@ && target@ == req.user_id@,
{
    let owner = info.owner_id.clone();
    let route_id = info.id.clone();
    authorize_user(&route_id, &owner, is_public, user_id, stored, PermissionType::Owner)?;
    Ok((info.id.clone(), req.user_id.clone()))
}

} // verus!
