use route_bucket::coordinate::Coordinate;
use route_bucket::error::ApplicationError;
use route_bucket::operation::{Operation, OperationType, SegmentTemplate};
use route_bucket::route::Route;
use route_bucket::route_info::RouteInfo;
use route_bucket::segment::{DrawingMode, Segment};
use route_bucket::segment_list::SegmentList;
use route_bucket::user::UserId;

fn coord(lat: i32, lon: i32) -> Coordinate {
    Coordinate::new(lat, lon).unwrap()
}

fn yokohama() -> Coordinate {
    coord(3546798, 13962607)
}

fn tokyo() -> Coordinate {
    coord(3568048, 13976906)
}

fn chiba() -> Coordinate {
    coord(3561311, 14011135)
}

fn empty_route() -> Route {
    let info = RouteInfo::new("route0", UserId::from_string("doncic".to_string()));
    Route::new(info, vec![], SegmentList::from_segments(vec![]))
}

fn waypoints(route: &Route) -> Vec<Coordinate> {
    route.gather_waypoints()
}

fn yokohama_to_chiba() -> Route {
    let mut route = empty_route();
    route.add_point(0, yokohama(), DrawingMode::FollowRoad).unwrap();
    route.add_point(1, chiba(), DrawingMode::FollowRoad).unwrap();
    route
}

#[test]
fn add_point_inserts_waypoint() {
    let mut route = yokohama_to_chiba();
    assert_eq!(waypoints(&route), vec![yokohama(), chiba()]);
    route.add_point(1, tokyo(), DrawingMode::FollowRoad).unwrap();
    assert_eq!(waypoints(&route), vec![yokohama(), tokyo(), chiba()]);
    assert_eq!(route.info().op_num, 3);
    assert_eq!(route.op_list().len(), 3);
    let segs = route.seg_list().segments();
    assert_eq!(segs.len(), 3);
    assert_eq!(*segs[0].goal(), tokyo());
    assert_eq!(*segs[1].start(), tokyo());
    assert_eq!(*segs[1].goal(), chiba());
    assert_eq!(*segs[2].start(), chiba());
    assert_eq!(*segs[2].goal(), chiba());
}

#[test]
fn add_point_at_front() {
    let mut route = yokohama_to_chiba();
    route.add_point(0, tokyo(), DrawingMode::Freehand).unwrap();
    assert_eq!(waypoints(&route), vec![tokyo(), yokohama(), chiba()]);
    assert_eq!(*route.seg_list().segments()[0].mode(), DrawingMode::Freehand);
    assert_eq!(*route.seg_list().segments()[0].goal(), yokohama());
}

#[test]
fn add_point_past_end_is_refused() {
    let mut route = yokohama_to_chiba();
    let r = route.add_point(3, tokyo(), DrawingMode::FollowRoad);
    assert!(matches!(r, Err(ApplicationError::DomainError(_))));
    assert_eq!(waypoints(&route), vec![yokohama(), chiba()]);
    assert_eq!(route.info().op_num, 2);
}

#[test]
fn remove_point_drops_waypoint() {
    let mut route = yokohama_to_chiba();
    route.add_point(1, tokyo(), DrawingMode::FollowRoad).unwrap();
    route.remove_point(1, DrawingMode::FollowRoad).unwrap();
    assert_eq!(waypoints(&route), vec![yokohama(), chiba()]);
    let segs = route.seg_list().segments();
    assert_eq!(*segs[0].goal(), chiba());
}

#[test]
fn remove_point_out_of_range_is_refused() {
    let mut route = yokohama_to_chiba();
    let r = route.remove_point(2, DrawingMode::FollowRoad);
    assert!(matches!(r, Err(ApplicationError::DomainError(_))));
    assert_eq!(route.op_list().len(), 2);
}

#[test]
fn move_point_replaces_waypoint() {
    let mut route = yokohama_to_chiba();
    route.move_point(1, tokyo(), DrawingMode::FollowRoad).unwrap();
    assert_eq!(waypoints(&route), vec![yokohama(), tokyo()]);
    assert_eq!(*route.seg_list().segments()[0].goal(), tokyo());
    assert_eq!(*route.seg_list().segments()[1].goal(), tokyo());
}

#[test]
fn move_point_out_of_range_is_refused() {
    let mut route = yokohama_to_chiba();
    assert!(matches!(route.move_point(5, tokyo(), DrawingMode::FollowRoad), Err(ApplicationError::DomainError(_))));
}

#[test]
fn undo_restores_waypoints_and_redo_reapplies() {
    let mut route = yokohama_to_chiba();
    route.add_point(1, tokyo(), DrawingMode::FollowRoad).unwrap();
    route.undo_operation().unwrap();
    assert_eq!(waypoints(&route), vec![yokohama(), chiba()]);
    assert_eq!(route.info().op_num, 2);
    assert_eq!(route.op_list().len(), 3);
    route.redo_operation().unwrap();
    assert_eq!(waypoints(&route), vec![yokohama(), tokyo(), chiba()]);
    assert_eq!(route.info().op_num, 3);
}

#[test]
fn undo_of_remove_and_move() {
    let mut route = yokohama_to_chiba();
    route.add_point(1, tokyo(), DrawingMode::FollowRoad).unwrap();
    route.remove_point(0, DrawingMode::FollowRoad).unwrap();
    assert_eq!(waypoints(&route), vec![tokyo(), chiba()]);
    route.undo_operation().unwrap();
    assert_eq!(waypoints(&route), vec![yokohama(), tokyo(), chiba()]);
    route.move_point(2, yokohama(), DrawingMode::Freehand).unwrap();
    assert_eq!(waypoints(&route), vec![yokohama(), tokyo(), yokohama()]);
    route.undo_operation().unwrap();
    assert_eq!(waypoints(&route), vec![yokohama(), tokyo(), chiba()]);
}

#[test]
fn undo_all_then_redo_all() {
    let mut route = yokohama_to_chiba();
    route.undo_operation().unwrap();
    route.undo_operation().unwrap();
    assert_eq!(waypoints(&route), vec![]);
    assert_eq!(route.info().op_num, 0);
    route.redo_operation().unwrap();
    route.redo_operation().unwrap();
    assert_eq!(waypoints(&route), vec![yokohama(), chiba()]);
}

#[test]
fn cannot_undo_if_nothing_applied() {
    let mut route = empty_route();
    let r = route.undo_operation();
    assert_eq!(r, Err(ApplicationError::InvalidOperation("No more operations to undo.")));
    assert_eq!(route.info().op_num, 0);
}

#[test]
fn cannot_redo_if_nothing_to_redo() {
    let mut route = yokohama_to_chiba();
    let r = route.redo_operation();
    assert_eq!(r, Err(ApplicationError::InvalidOperation("No more operations to redo.")));
    assert_eq!(waypoints(&route), vec![yokohama(), chiba()]);
}

#[test]
fn push_after_undo_drops_undone_edits() {
    let mut route = yokohama_to_chiba();
    route.undo_operation().unwrap();
    route.add_point(1, tokyo(), DrawingMode::FollowRoad).unwrap();
    assert_eq!(route.op_list().len(), 2);
    assert_eq!(route.info().op_num, 2);
    assert_eq!(waypoints(&route), vec![yokohama(), tokyo()]);
    assert!(route.redo_operation().is_err());
}

#[test]
fn can_get_operation() {
    let route = yokohama_to_chiba();
    let op = route.get_operation(1).unwrap();
    assert_eq!(*op.op_type(), OperationType::Add);
    assert_eq!(*op.pos(), 0);
    assert!(matches!(route.get_operation(2), Err(ApplicationError::DomainError(_))));
}

#[test]
fn operation_new_add_records_templates() {
    let list = yokohama_to_chiba().into_parts().2;
    let op = Operation::new_add(1, tokyo(), &list, DrawingMode::FollowRoad).unwrap();
    assert_eq!(*op.op_type(), OperationType::Add);
    assert_eq!(*op.pos(), 0);
    assert_eq!(
        op.org_seg_templates().clone(),
        vec![SegmentTemplate::new(yokohama(), chiba(), DrawingMode::FollowRoad)]
    );
    assert_eq!(
        op.new_seg_templates().clone(),
        vec![
            SegmentTemplate::new(yokohama(), tokyo(), DrawingMode::FollowRoad),
            SegmentTemplate::new(tokyo(), chiba(), DrawingMode::FollowRoad),
        ]
    );
    assert!(matches!(
        Operation::new_add(3, tokyo(), &list, DrawingMode::FollowRoad),
        Err(ApplicationError::DomainError(_))
    ));
}

#[test]
fn operation_new_remove_and_move() {
    let list = yokohama_to_chiba().into_parts().2;
    let rm = Operation::new_remove(1, &list, DrawingMode::Freehand).unwrap();
    assert_eq!(*rm.op_type(), OperationType::Remove);
    assert_eq!(
        rm.new_seg_templates().clone(),
        vec![SegmentTemplate::new(yokohama(), chiba(), DrawingMode::Freehand)]
    );
    assert_eq!(rm.org_seg_templates().len(), 2);
    let mv = Operation::new_move(0, tokyo(), &list, DrawingMode::FollowRoad).unwrap();
    assert_eq!(*mv.op_type(), OperationType::Move);
    assert_eq!(
        mv.new_seg_templates().clone(),
        vec![SegmentTemplate::new(tokyo(), chiba(), DrawingMode::FollowRoad)]
    );
    assert!(Operation::new_remove(2, &list, DrawingMode::Freehand).is_err());
    assert!(Operation::new_move(2, tokyo(), &list, DrawingMode::Freehand).is_err());
}

#[test]
fn reverse_of_reverse_is_the_operation() {
    let list = yokohama_to_chiba().into_parts().2;
    let op = Operation::new_add(1, tokyo(), &list, DrawingMode::FollowRoad).unwrap();
    let mut twice = op.clone();
    twice.reverse();
    assert_eq!(*twice.op_type(), OperationType::Remove);
    assert_eq!(twice.org_seg_templates().clone(), op.new_seg_templates().clone());
    twice.reverse();
    assert_eq!(*twice.op_type(), OperationType::Add);
    assert_eq!(twice.org_seg_templates().clone(), op.org_seg_templates().clone());
    assert_eq!(twice.new_seg_templates().clone(), op.new_seg_templates().clone());
}

#[test]
fn operation_type_reverse_and_codes() {
    assert_eq!(OperationType::Add.reverse(), OperationType::Remove);
    assert_eq!(OperationType::Remove.reverse(), OperationType::Add);
    assert_eq!(OperationType::Move.reverse(), OperationType::Move);
    assert_eq!(OperationType::Add.as_str(), "ad");
    assert_eq!(OperationType::from_str("rm"), Some(OperationType::Remove));
    assert_eq!(OperationType::from_str("mv"), Some(OperationType::Move));
    assert_eq!(OperationType::from_str("xx"), None);
}

#[test]
fn cleared_route_has_nothing() {
    let route = yokohama_to_chiba();
    let (info, _, _) = route.into_parts();
    let cleared = Route::cleared(info);
    assert_eq!(cleared.info().op_num, 0);
    assert!(cleared.op_list().is_empty());
    assert!(cleared.seg_list().is_empty());
}

#[test]
fn segment_template_round_trip() {
    let seg = Segment::new_empty(yokohama(), tokyo(), DrawingMode::Freehand);
    let t = SegmentTemplate::from_segment(&seg);
    assert_eq!(t, SegmentTemplate::new(yokohama(), tokyo(), DrawingMode::Freehand));
    let back = t.to_segment();
    assert_eq!(*back.start(), yokohama());
    assert_eq!(*back.goal(), tokyo());
    assert!(back.is_empty());
}

#[test]
fn last_edit_is_stored_only_when_all_are_applied() {
    let mut route = yokohama_to_chiba();
    assert_eq!(route.operation_to_store(), Some(1));
    route.undo_operation().unwrap();
    assert_eq!(route.operation_to_store(), None);
    assert_eq!(empty_route().operation_to_store(), None);
}

#[test]
fn edits_keep_the_applied_history_and_put_the_new_edit_last() {
    let mut route = yokohama_to_chiba();
    route.add_point(1, tokyo(), DrawingMode::Freehand).unwrap();
    route.undo_operation().unwrap();
    let first = route.op_list()[0].clone();
    route.move_point(1, tokyo(), DrawingMode::Freehand).unwrap();
    assert_eq!(route.op_list().len(), 3);
    assert_eq!(route.op_list()[0].org_seg_templates().clone(), first.org_seg_templates().clone());
    assert_eq!(*route.op_list()[2].op_type(), OperationType::Move);
    let segs = route.seg_list().segments();
    assert_eq!(*segs[0].mode(), DrawingMode::Freehand);
    assert!(segs[0].is_empty());
}

#[test]
fn refused_edit_positions_are_named_in_the_error() {
    let list = yokohama_to_chiba().into_parts().2;
    assert_eq!(
        Operation::new_add(3, tokyo(), &list, DrawingMode::FollowRoad).err(),
        Some(ApplicationError::DomainError("pos(3) cannot be greater than org_seg_list.len()(2) at Operation::new_add".to_string()))
    );
    assert_eq!(
        Operation::new_remove(2, &list, DrawingMode::FollowRoad).err(),
        Some(ApplicationError::DomainError(
            "pos(2) cannot be greater than or equal to org_seg_list.len()(2) at Operation::new_remove".to_string()
        ))
    );
    assert_eq!(
        Operation::new_move(7, tokyo(), &list, DrawingMode::FollowRoad).err(),
        Some(ApplicationError::DomainError(
            "pos(7) cannot be greater than or equal to org_seg_list.len()(2) at Operation::new_move".to_string()
        ))
    );
}
