use route_bucket::coordinate::Coordinate;
use route_bucket::error::ApplicationError;
use route_bucket::responses::{RouteGetResponse, RouteOperationResponse};
use route_bucket::route::Route;
use route_bucket::route_info::RouteInfo;
use route_bucket::segment::{DrawingMode, Segment};
use route_bucket::segment_list::SegmentList;
use route_bucket::user::UserId;
use route_bucket::values::{Distance, Elevation};

fn coord(lat: i32, lon: i32) -> Coordinate {
    Coordinate::new(lat, lon).unwrap()
}

fn with_elevation(c: Coordinate, e: i32) -> Coordinate {
    let mut c = c;
    c.elevation = Some(Elevation::from_value(e));
    c
}

fn yokohama() -> Coordinate {
    coord(3546798, 13962607)
}

fn tokyo() -> Coordinate {
    coord(3568048, 13976906)
}

fn chiba() -> Coordinate {
    coord(3561311, 14011135)
}

fn filled(start: Coordinate, goal: Coordinate, points: Vec<Coordinate>) -> Segment {
    let mut seg = Segment::new_empty(start, goal, DrawingMode::FollowRoad);
    seg.set_points(points).unwrap();
    seg
}

/// Yokohama to Chiba via Tokyo, with elevations 1, 4, 4, 11, 11 along the points.
fn via_tokyo_with_elevation() -> SegmentList {
    let (y, t, c) = (with_elevation(yokohama(), 1), with_elevation(tokyo(), 4), with_elevation(chiba(), 11));
    SegmentList::from_segments(vec![filled(y, t, vec![y, t]), filled(t, c, vec![t, c]), filled(c, c, vec![c])])
}

#[test]
fn can_calc_elevation_gain() {
    let (asc, desc) = via_tokyo_with_elevation().calc_elevation_gain();
    assert_eq!(asc.value(), 10);
    assert_eq!(desc.value(), 0);
}

#[test]
fn elevation_gain_counts_descent_and_skips_unknown() {
    let list = SegmentList::from_segments(vec![filled(
        yokohama(),
        chiba(),
        vec![with_elevation(yokohama(), 10), tokyo(), with_elevation(tokyo(), 3), with_elevation(chiba(), 8)],
    )]);
    let (asc, desc) = list.calc_elevation_gain();
    assert_eq!(asc.value(), 5);
    assert_eq!(desc.value(), 7);
}

#[test]
fn elevation_gain_of_empty_list_is_zero() {
    let (asc, desc) = SegmentList::from_segments(vec![]).calc_elevation_gain();
    assert!(asc.is_zero());
    assert!(desc.is_zero());
}

#[test]
fn set_points_adds_missing_ends() {
    let mut seg = Segment::new_empty(yokohama(), chiba(), DrawingMode::Freehand);
    seg.set_points(vec![tokyo()]).unwrap();
    assert_eq!(seg.points().clone(), vec![yokohama(), tokyo(), chiba()]);
    let again = seg.set_points(vec![]);
    assert!(matches!(again, Err(ApplicationError::DomainError(_))));
    let mut seg2 = Segment::new_empty(yokohama(), chiba(), DrawingMode::Freehand);
    seg2.set_points(vec![yokohama(), chiba()]).unwrap();
    assert_eq!(seg2.points().len(), 2);
}

#[test]
fn can_attach_distance_from_start() {
    let mut list = SegmentList::from_segments(vec![
        filled(yokohama(), tokyo(), vec![yokohama(), tokyo()]),
        filled(tokyo(), chiba(), vec![tokyo(), chiba()]),
        filled(chiba(), chiba(), vec![chiba()]),
    ]);
    let steps = vec![vec![Distance::from_value(26936)], vec![Distance::from_value(31554)], vec![]];
    list.attach_distance_from_start(&steps);
    let segs = list.segments();
    assert_eq!(segs[0].points()[0].distance_from_start, Some(Distance::from_value(0)));
    assert_eq!(segs[0].points()[1].distance_from_start, Some(Distance::from_value(26936)));
    assert_eq!(segs[1].points()[0].distance_from_start, Some(Distance::from_value(26936)));
    assert_eq!(segs[1].points()[1].distance_from_start, Some(Distance::from_value(58490)));
    assert_eq!(segs[2].points()[0].distance_from_start, Some(Distance::from_value(58490)));
    assert_eq!(list.get_total_distance().unwrap().value(), 58490);
}

#[test]
fn total_distance_needs_distances() {
    assert_eq!(SegmentList::from_segments(vec![]).get_total_distance().unwrap().value(), 0);
    let list = SegmentList::from_segments(vec![filled(yokohama(), tokyo(), vec![])]);
    assert!(matches!(list.get_total_distance(), Err(ApplicationError::DomainError(_))));
    let empty_last = SegmentList::from_segments(vec![Segment::new_empty(yokohama(), tokyo(), DrawingMode::Freehand)]);
    assert!(matches!(empty_last.get_total_distance(), Err(ApplicationError::DomainError(_))));
}

#[test]
fn can_attach_elevations() {
    let y7 = with_elevation(yokohama(), 7);
    let mut list = SegmentList::from_segments(vec![filled(y7, tokyo(), vec![y7, tokyo()])]);
    let found = vec![vec![Some(Elevation::from_value(100)), Some(Elevation::from_value(5))]];
    list.attach_elevations(&found);
    let pts = list.segments()[0].points();
    assert_eq!(pts[0].elevation, Some(Elevation::from_value(7)));
    assert_eq!(pts[1].elevation, Some(Elevation::from_value(5)));
}

#[test]
fn can_calc_bounding_box() {
    let bbox = via_tokyo_with_elevation().calc_bounding_box().unwrap();
    assert_eq!(bbox.min_coord.latitude.value(), 3546798);
    assert_eq!(bbox.max_coord.latitude.value(), 3568048);
    assert_eq!(bbox.min_coord.longitude.value(), 13962607);
    assert_eq!(bbox.max_coord.longitude.value(), 14011135);
    assert!(bbox.min_coord.elevation.is_none());
    let empty = SegmentList::from_segments(vec![Segment::new_empty(yokohama(), tokyo(), DrawingMode::Freehand)]);
    assert!(empty.calc_bounding_box().is_err());
}

#[test]
fn gathers_waypoints_and_segments_in_between() {
    let list = via_tokyo_with_elevation();
    assert_eq!(
        list.gather_waypoints(),
        vec![with_elevation(yokohama(), 1), with_elevation(tokyo(), 4), with_elevation(chiba(), 11)]
    );
    let between = list.into_segments_in_between();
    assert_eq!(between.len(), 2);
    assert_eq!(*between[1].goal(), with_elevation(chiba(), 11));
}

#[test]
fn finds_and_fills_empty_segments() {
    let mut list = SegmentList::from_segments(vec![
        filled(yokohama(), tokyo(), vec![]),
        Segment::new_empty(tokyo(), chiba(), DrawingMode::Freehand),
        Segment::new_empty(chiba(), chiba(), DrawingMode::Freehand),
    ]);
    assert_eq!(list.empty_segment_indices(), vec![1, 2]);
    list.set_points_at(1, vec![]).unwrap();
    assert_eq!(list.segments()[1].points().clone(), vec![tokyo(), chiba()]);
    assert!(list.set_points_at(0, vec![]).is_err());
    assert_eq!(list.empty_segment_indices(), vec![2]);
}

#[test]
fn operation_response_of_route() {
    let info = RouteInfo::new("route0", UserId::from_string("doncic".to_string()));
    let mut list = via_tokyo_with_elevation();
    let steps = vec![vec![Distance::from_value(100)], vec![Distance::from_value(50)], vec![]];
    list.attach_distance_from_start(&steps);
    let route = Route::new(info, vec![], list);
    let resp = RouteOperationResponse::try_from(route).unwrap();
    assert_eq!(resp.waypoints.len(), 3);
    assert_eq!(resp.waypoints[1].latitude.value(), 3568048);
    assert_eq!(resp.segments.len(), 2);
    assert_eq!(resp.elevation_gain.value(), 10);
    assert_eq!(resp.total_distance.value(), 150);
}

#[test]
fn get_response_is_refused_without_distances() {
    let info = RouteInfo::new("route0", UserId::from_string("doncic".to_string()));
    let route = Route::new(info, vec![], via_tokyo_with_elevation());
    assert!(matches!(RouteGetResponse::try_from(route), Err(ApplicationError::DomainError(_))));
    let info = RouteInfo::new("empty", UserId::from_string("doncic".to_string()));
    let resp = RouteGetResponse::try_from(Route::new(info, vec![], SegmentList::from_segments(vec![]))).unwrap();
    assert_eq!(resp.total_distance.value(), 0);
    assert!(resp.waypoints.is_empty());
    assert_eq!(resp.route_info.name, "empty");
}

#[test]
fn segment_from_stored_parts() {
    let seg = Segment::try_from_parts("seg0".to_string(), "freehand", vec![yokohama(), tokyo()]).unwrap();
    assert_eq!(*seg.start(), yokohama());
    assert_eq!(*seg.goal(), tokyo());
    assert_eq!(*seg.mode(), DrawingMode::Freehand);
    assert!(Segment::try_from_parts("seg1".to_string(), "freehand", vec![]).is_err());
    assert!(Segment::try_from_parts("seg2".to_string(), "teleport", vec![tokyo()]).is_err());
}

#[test]
fn drawing_mode_names() {
    assert_eq!(DrawingMode::FollowRoad.as_str(), "follow_road");
    assert_eq!(DrawingMode::from_str("freehand"), Some(DrawingMode::Freehand));
    assert_eq!(DrawingMode::from_str("Freehand"), None);
}
