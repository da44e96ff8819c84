use route_bucket::dto::{after_begin, after_end, after_work, permission_from_row, TransactionStep, operation_type_from_code, transaction_end, MockConnection, SegmentDto, SegmentTemplateDto, TransactionEnd};
use route_bucket::error::ApplicationError;
use route_bucket::operation::OperationType;
use route_bucket::osrm::OsrmApi;
use route_bucket::permission::PermissionType;
use route_bucket::route_gpx::{gpx_namespace_attributes, gpx_rewrite_step, RewriteAction, RouteGpx, XmlEventKind};
use route_bucket::route_info::RouteId;
use route_bucket::search_query::{OrderBy, RouteSearchQuery, SearchQuery, WhereCondition};
use route_bucket::segment::DrawingMode;
use route_bucket::types::Polyline;
use route_bucket::user::UserId;
use route_bucket::coordinate::Coordinate;
use route_bucket::waypoint_edit::{Operation as WaypointEdit, OperationType as WaypointEditType};

#[test]
fn where_conditions_render() {
    assert_eq!(WhereCondition::Eq("is_public", "true".into()).to_query(), "is_public = true");
    assert_eq!(WhereCondition::In("id", vec![]).to_query(), "false");
    assert_eq!(WhereCondition::In("id", vec!["'a'".into(), "'b'".into()]).to_query(), "id IN ('a','b')");
    assert_eq!(WhereCondition::And(vec![]).to_query(), "");
    assert_eq!(WhereCondition::Or(vec![WhereCondition::Eq("x", "1".into())]).to_query(), "x = 1");
    assert_eq!(
        WhereCondition::Or(vec![WhereCondition::Eq("x", "1".into()), WhereCondition::Eq("y", "2".into())]).to_query(),
        "(x = 1 OR y = 2)"
    );
    assert_eq!(OrderBy { field_name: "updated_at", descending: true }.to_query(), "`updated_at` DESC");
    assert_eq!(OrderBy { field_name: "name", descending: false }.to_query(), "`name` ");
}

#[test]
fn empty_route_search_lists_public_routes_newest_first() {
    let q = SearchQuery::from_route_search_query(RouteSearchQuery::empty());
    assert_eq!(q.to_sql(false), "SELECT * FROM routes WHERE is_public = true ORDER BY `updated_at` DESC ");
    assert_eq!(q.to_sql(true), "SELECT COUNT(*) FROM routes WHERE is_public = true ");
}

#[test]
fn route_search_with_every_condition() {
    let mut rq = RouteSearchQuery::empty();
    rq.ids = Some(vec![RouteId::from_string("abcdefghijk".to_string())]);
    rq.caller_id = Some(UserId::from_string("doncic".to_string()));
    rq.owner_id = Some(UserId::from_string("porzingis".to_string()));
    rq.page_offset = 2;
    rq.page_size = Some(10);
    let q = SearchQuery::from_route_search_query(rq);
    assert_eq!(q.limit, Some(10));
    assert_eq!(q.offset, Some(20));
    assert_eq!(
        q.to_sql(false),
        "SELECT * FROM routes WHERE ((is_public = true OR id IN ('abcdefghijk') OR owner_id = 'doncic') AND owner_id = 'porzingis') ORDER BY `updated_at` DESC LIMIT 10 OFFSET 20 "
    );
    assert_eq!(
        q.to_sql(true),
        "SELECT COUNT(*) FROM routes WHERE ((is_public = true OR id IN ('abcdefghijk') OR owner_id = 'doncic') AND owner_id = 'porzingis') "
    );
}

#[test]
fn stored_segments_and_templates() {
    let dto = SegmentDto::from_model(&RouteId::from_string("abcdefghijk".to_string()), 3, Polyline::from_string("_p~iF~ps|U".to_string()));
    assert_eq!(dto.route_id(), "abcdefghijk");
    assert_eq!(*dto.index(), 3);
    assert_eq!(dto.polyline(), "_p~iF~ps|U");
    let t = SegmentTemplateDto::new(Polyline::from_string("a".into()), Polyline::from_string("b".into()), DrawingMode::FollowRoad);
    assert_eq!(t.mode, "follow_road");
    assert_eq!(t.drawing_mode(), Ok(DrawingMode::FollowRoad));
    let broken = SegmentTemplateDto { start: "a".into(), goal: "b".into(), mode: "walk".into() };
    assert!(matches!(broken.drawing_mode(), Err(ApplicationError::DataBaseError(_))));
    assert_eq!(operation_type_from_code("mv"), Ok(OperationType::Move));
    assert!(matches!(operation_type_from_code("zz"), Err(ApplicationError::DomainError(_))));
    let conn = MockConnection {};
    assert!(conn.begin_transaction().is_ok());
    assert!(conn.commit_transaction().is_ok());
    assert!(conn.rollback_transaction().is_ok());
    assert_eq!(transaction_end(true), TransactionEnd::Commit);
    assert_eq!(transaction_end(false), TransactionEnd::Rollback);
}

#[test]
fn gpx_document_parts() {
    let gpx = RouteGpx::new("route0".to_string(), b"<gpx/>".to_vec());
    assert_eq!(gpx.name(), "route0");
    assert_eq!(gpx.as_slice(), b"<gpx/>");
}

#[test]
fn osrm_request_addresses() {
    let api = OsrmApi::new("http://localhost:5000".to_string());
    assert_eq!(api.request_url("nearest", "139.7,35.6"), "http://localhost:5000/nearest/v1/bike/139.7,35.6");
    let args = OsrmApi::route_args("_p~iF~ps|U\\");
    assert_eq!(args, "polyline(_p~iF~ps|U\\)?overview=full");
    assert_eq!(
        api.request_url("route", &args),
        "http://localhost:5000/route/v1/bike/polyline(_p~iF~ps|U%5C)?overview=full"
    );
}

fn coord(lat: i32, lon: i32) -> Coordinate {
    Coordinate::new(lat, lon).unwrap()
}

#[test]
fn waypoint_edits_apply_and_undo() {
    let (a, b, c) = (coord(1, 1), coord(2, 2), coord(3, 3));
    let mut w = vec![a, c];
    let add = WaypointEdit::new_add(1, b);
    add.apply(&mut w).unwrap();
    assert_eq!(w, vec![a, b, c]);
    let mut undo = WaypointEdit::new_add(1, b);
    undo.reverse();
    assert_eq!(undo.op_type, WaypointEditType::Remove);
    undo.apply(&mut w).unwrap();
    assert_eq!(w, vec![a, c]);
    let mv = WaypointEdit::new_move(0, b, w.clone());
    mv.apply(&mut w).unwrap();
    assert_eq!(w, vec![b, c]);
    let rm = WaypointEdit::new_remove(1, w.clone());
    rm.apply(&mut w).unwrap();
    assert_eq!(w, vec![b]);
    let clear = WaypointEdit::new_clear(w.clone());
    clear.apply(&mut w).unwrap();
    assert!(w.is_empty());
    let mut init = WaypointEdit::new_clear(vec![a, b]);
    init.reverse();
    assert_eq!(init.op_type, WaypointEditType::InitWithList);
    init.apply(&mut w).unwrap();
    assert_eq!(w, vec![a, b]);
}

#[test]
fn waypoint_edit_codes() {
    assert_eq!(WaypointEditType::try_from("cl"), Ok(WaypointEditType::Clear));
    assert_eq!(WaypointEditType::try_from("in"), Ok(WaypointEditType::InitWithList));
    assert!(matches!(WaypointEditType::try_from("xx"), Err(ApplicationError::DomainError(_))));
    assert_eq!(WaypointEditType::Move.to_code(), "mv");
    assert_eq!(WaypointEditType::Clear.reverse(), WaypointEditType::InitWithList);
    assert_eq!(WaypointEditType::InitWithList.reverse().reverse(), WaypointEditType::InitWithList);
}

#[test]
fn gpx_namespace_rewrite_steps() {
    assert_eq!(gpx_rewrite_step(false, XmlEventKind::Other), (false, RewriteAction::Write));
    assert_eq!(gpx_rewrite_step(false, XmlEventKind::GpxStart), (true, RewriteAction::WriteWithNamespaces));
    assert_eq!(gpx_rewrite_step(true, XmlEventKind::Eof), (true, RewriteAction::Finish));
    assert_eq!(gpx_rewrite_step(false, XmlEventKind::Eof), (false, RewriteAction::MissingGpx));
    assert_eq!(gpx_rewrite_step(true, XmlEventKind::Invalid), (true, RewriteAction::InvalidXml));
    assert_eq!(
        gpx_namespace_attributes(),
        vec![
            ("xsi:schemaLocation", "http://www.topografix.com/GPX/11.xsd"),
            ("xmlns", "http://www.topografix.com/GPX/1/1"),
            ("xmlns:xsi", "http://www.w3.org/2001/XMLSchema-instance"),
        ]
    );
}

#[test]
fn route_search_condition_tree() {
    let mut rq = RouteSearchQuery::empty();
    rq.caller_id = Some(UserId::from_string("doncic".to_string()));
    rq.owner_id = Some(UserId::from_string("porzingis".to_string()));
    let q = SearchQuery::from_route_search_query(rq);
    match q.where_condition {
        Some(WhereCondition::And(cs)) => {
            assert_eq!(cs.len(), 2);
            match &cs[0] {
                WhereCondition::Or(vs) => {
                    assert_eq!(vs.len(), 2);
                    assert!(matches!(&vs[0], WhereCondition::Eq("is_public", v) if v == "true"));
                    assert!(matches!(&vs[1], WhereCondition::Eq("owner_id", v) if v == "'doncic'"));
                }
                _ => panic!("visibility is not an Or"),
            }
            assert!(matches!(&cs[1], WhereCondition::Eq("owner_id", v) if v == "'porzingis'"));
        }
        _ => panic!("condition is not an And"),
    }
    assert_eq!(operation_type_from_code("zz"), Err(ApplicationError::DomainError("Invalid type code: zz".to_string())));
}

#[test]
fn transaction_steps() {
    assert!(matches!(after_begin::<u32>(Ok(())), TransactionStep::RunWork));
    match after_begin::<u32>(Err(ApplicationError::DataBaseError("down".into()))) {
        TransactionStep::Answer(r) => assert_eq!(r, Err(ApplicationError::DataBaseError("down".into()))),
        _ => panic!("the work must not run"),
    }
    match after_work::<u32>(Ok(7)) {
        TransactionStep::End(end, pending) => {
            assert_eq!(end, TransactionEnd::Commit);
            assert_eq!(pending, Ok(7));
        }
        _ => panic!("the transaction must end"),
    }
    match after_work::<u32>(Err(ApplicationError::DomainError("bad".into()))) {
        TransactionStep::End(end, _) => assert_eq!(end, TransactionEnd::Rollback),
        _ => panic!("the transaction must end"),
    }
    assert_eq!(after_end::<u32>(Ok(7), Ok(())), Ok(7));
    assert_eq!(
        after_end::<u32>(Ok(7), Err(ApplicationError::DataBaseError("commit".into()))),
        Err(ApplicationError::DataBaseError("commit".into()))
    );
}

#[test]
fn stored_permission_rows() {
    let p = permission_from_row("abcdefghijk".into(), "doncic".into(), "editor").unwrap();
    assert_eq!(p.permission_type, PermissionType::Editor);
    assert_eq!(p.user_id.as_str(), "doncic");
    assert_eq!(p.route_id.as_str(), "abcdefghijk");
    assert_eq!(
        permission_from_row("abcdefghijk".into(), "doncic".into(), "admin").err(),
        Some(ApplicationError::DataBaseError("Failed to parse permission.permission_type (VariantNotFound)".into()))
    );
}

#[test]
fn count_query_is_listing_without_paging() {
    let q = SearchQuery {
        table_name: "routes",
        where_condition: Some(WhereCondition::Eq("owner_id", "'luka'".into())),
        order_by: Some(OrderBy { field_name: "name", descending: false }),
        limit: Some(5),
        offset: Some(15),
    };
    let count = q.to_sql(true);
    let listing = q.to_sql(false);
    assert!(count.starts_with("SELECT COUNT(*)"));
    assert_eq!(count, "SELECT COUNT(*) FROM routes WHERE owner_id = 'luka' ");
    assert_eq!(listing, format!("SELECT *{}ORDER BY `name`  LIMIT 5 OFFSET 15 ", &count["SELECT COUNT(*)".len()..]));
}

fn run_transaction(begin: Result<(), ApplicationError>, work: Result<u32, ApplicationError>, end: Result<(), ApplicationError>) -> (Result<u32, ApplicationError>, Option<TransactionEnd>) {
    match after_begin::<u32>(begin) {
        TransactionStep::Answer(a) => (a, None),
        _ => match after_work(work) {
            TransactionStep::End(kind, pending) => (after_end(pending, end), Some(kind)),
            _ => panic!("the work is followed by an end"),
        },
    }
}

#[test]
fn transaction_follows_its_law() {
    let begin_failed = run_transaction(Err(ApplicationError::DataBaseError("no begin".into())), Ok(1), Ok(()));
    assert!(matches!(begin_failed, (Err(ApplicationError::DataBaseError(ref m)), None) if m == "no begin"));
    assert!(matches!(run_transaction(Ok(()), Ok(7), Ok(())), (Ok(7), Some(TransactionEnd::Commit))));
    let rolled_back = run_transaction(Ok(()), Err(ApplicationError::InvalidOperation("bad")), Ok(()));
    assert!(matches!(rolled_back, (Err(ApplicationError::InvalidOperation(ref m)), Some(TransactionEnd::Rollback)) if *m == "bad"));
    let commit_failed = run_transaction(Ok(()), Ok(7), Err(ApplicationError::DataBaseError("no commit".into())));
    assert!(matches!(commit_failed, (Err(ApplicationError::DataBaseError(ref m)), Some(TransactionEnd::Commit)) if m == "no commit"));
}
