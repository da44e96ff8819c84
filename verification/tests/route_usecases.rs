use route_bucket::coordinate::Coordinate;
use route_bucket::error::ApplicationError;
use route_bucket::permission::PermissionType;
use route_bucket::responses::{DeletePermissionRequest, UpdatePermissionRequest};
use route_bucket::route::Route;
use route_bucket::route_info::RouteInfo;
use route_bucket::route_usecase::{
    add_point, clear_route, delete_permission, move_point, redo_operation, remove_point, rename, undo_operation,
    update_permission,
};
use route_bucket::segment::DrawingMode;
use route_bucket::segment_list::SegmentList;
use route_bucket::user::UserId;

fn uid(s: &str) -> UserId {
    UserId::from_string(s.to_string())
}

fn coord(lat: i32, lon: i32) -> Coordinate {
    Coordinate::new(lat, lon).unwrap()
}

fn route() -> Route {
    let info = RouteInfo::new("route0", uid("doncic"));
    Route::new(info, vec![], SegmentList::from_segments(vec![]))
}

#[test]
fn owner_and_editors_may_edit() {
    let mut r = route();
    let owner = Some(uid("doncic"));
    add_point(&mut r, false, &owner, None, 0, coord(1, 1), DrawingMode::Freehand).unwrap();
    let editor = Some(uid("porzingis"));
    add_point(&mut r, false, &editor, Some(PermissionType::Editor), 1, coord(2, 2), DrawingMode::Freehand).unwrap();
    move_point(&mut r, false, &owner, None, 1, coord(3, 3), DrawingMode::Freehand).unwrap();
    assert_eq!(r.gather_waypoints(), vec![coord(1, 1), coord(3, 3)]);
    remove_point(&mut r, false, &owner, None, 0, DrawingMode::Freehand).unwrap();
    assert_eq!(r.gather_waypoints(), vec![coord(3, 3)]);
    undo_operation(&mut r, false, &owner, None).unwrap();
    assert_eq!(r.gather_waypoints(), vec![coord(1, 1), coord(3, 3)]);
    redo_operation(&mut r, false, &editor, Some(PermissionType::Owner)).unwrap();
    assert_eq!(r.gather_waypoints(), vec![coord(3, 3)]);
}

#[test]
fn viewers_and_visitors_may_not_edit() {
    let mut r = route();
    let viewer = Some(uid("porzingis"));
    let e = add_point(&mut r, true, &viewer, Some(PermissionType::Viewer), 0, coord(1, 1), DrawingMode::Freehand);
    assert!(matches!(e, Err(ApplicationError::AuthorizationError(_))));
    assert_eq!(r.op_list().len(), 0);
    let e = undo_operation(&mut r, true, &None, None);
    assert!(matches!(e, Err(ApplicationError::AuthorizationError(_))));
    let e = remove_point(&mut r, false, &viewer, None, 0, DrawingMode::Freehand);
    assert!(matches!(e, Err(ApplicationError::AuthorizationError(_))));
    let undo_nothing = undo_operation(&mut r, false, &Some(uid("doncic")), None);
    assert!(matches!(undo_nothing, Err(ApplicationError::InvalidOperation(_))));
}

#[test]
fn rename_and_clear_need_edit_rights() {
    let mut info = RouteInfo::new("route0", uid("doncic"));
    assert!(rename(&mut info, false, &Some(uid("x")), None, "route1").is_err());
    assert_eq!(info.name, "route0");
    rename(&mut info, false, &Some(uid("doncic")), None, "route1").unwrap();
    assert_eq!(info.name, "route1");
    info.op_num = 3;
    let cleared = clear_route(info, false, &Some(uid("doncic")), None).unwrap();
    assert_eq!(cleared.info().op_num, 0);
    assert!(cleared.seg_list().is_empty());
    let info = RouteInfo::new("route2", uid("doncic"));
    assert!(matches!(clear_route(info, true, &None, None), Err(ApplicationError::AuthorizationError(_))));
}

#[test]
fn only_owners_manage_permissions() {
    let info = RouteInfo::new("route0", uid("doncic"));
    let req = UpdatePermissionRequest { user_id: uid("porzingis"), permission_type: PermissionType::Editor };
    let p = update_permission(&info, false, &Some(uid("doncic")), None, &req).unwrap();
    assert_eq!(p.user_id.as_str(), "porzingis");
    assert_eq!(p.permission_type, PermissionType::Editor);
    assert!(p.route_id.same_as(&info.id));
    let e = update_permission(&info, false, &Some(uid("porzingis")), Some(PermissionType::Editor), &req);
    assert!(matches!(e, Err(ApplicationError::AuthorizationError(_))));
    let del = DeletePermissionRequest { user_id: uid("porzingis") };
    let (route_id, target) = delete_permission(&info, false, &Some(uid("doncic")), None, &del).unwrap();
    assert!(route_id.same_as(&info.id));
    assert_eq!(target.as_str(), "porzingis");
    assert!(delete_permission(&info, true, &None, None, &del).is_err());
}

#[test]
fn use_case_rename_changes_only_the_name_and_undo_keeps_history() {
    let mut info = RouteInfo::new("route0", uid("doncic"));
    info.op_num = 2;
    info.created_at = 5;
    rename(&mut info, false, &Some(uid("doncic")), None, "route1").unwrap();
    assert_eq!(info.name, "route1");
    assert_eq!(info.op_num, 2);
    assert_eq!(info.created_at, 5);
    let mut r = route();
    let owner = Some(uid("doncic"));
    add_point(&mut r, false, &owner, None, 0, coord(1, 1), DrawingMode::Freehand).unwrap();
    undo_operation(&mut r, false, &owner, None).unwrap();
    assert_eq!(r.op_list().len(), 1);
    let e = add_point(&mut r, false, &Some(uid("x")), None, 0, coord(1, 1), DrawingMode::Freehand);
    assert_eq!(
        e,
        Err(ApplicationError::AuthorizationError(format!(
            "User x doesn't have editor permission on Route {} (actual permission: none).",
            r.info().id.as_str()
        )))
    );
}
