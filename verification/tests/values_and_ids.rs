use route_bucket::coordinate::Coordinate;
use route_bucket::error::ApplicationError;
use route_bucket::operation::OperationId;
use route_bucket::route_info::{RouteId, RouteInfo, NO_TIME};
use route_bucket::segment::SegmentId;
use route_bucket::types::{Email, Polyline, Url};
use route_bucket::user::UserId;
use route_bucket::values::{Distance, Elevation, Latitude, Longitude};

fn is_url_safe(c: char) -> bool {
    c.is_ascii_alphanumeric() || c == '_' || c == '-'
}

#[test]
fn route_ids_are_eleven_url_safe_characters() {
    let id = RouteId::new();
    assert_eq!(id.as_str().chars().count(), 11);
    assert!(id.as_str().chars().all(is_url_safe));
    let other = RouteId::new();
    assert!(!id.same_as(&other) || id.as_str() == other.as_str());
}

#[test]
fn segment_and_operation_ids_are_twenty_one_characters() {
    let s = SegmentId::new();
    assert_eq!(s.as_str().chars().count(), 21);
    assert!(s.as_str().chars().all(is_url_safe));
    let o = OperationId::new();
    assert_eq!(o.to_string().chars().count(), 21);
}

#[test]
fn ids_from_strings_keep_their_text() {
    let id = RouteId::from_string("abcdefghijk".to_string());
    assert_eq!(id.to_string(), "abcdefghijk");
    assert!(id.same_as(&RouteId::from_string("abcdefghijk".to_string())));
    assert!(!id.same_as(&RouteId::from_string("abcdefghijl".to_string())));
}

#[test]
fn latitude_and_longitude_ranges() {
    assert!(Latitude::try_from(9_000_000).is_ok());
    assert!(Latitude::try_from(-9_000_000).is_ok());
    assert!(matches!(Latitude::try_from(9_000_001), Err(ApplicationError::ValueObjectError(_))));
    assert!(Longitude::try_from(18_000_000).is_ok());
    assert!(matches!(Longitude::try_from(-18_000_001), Err(ApplicationError::ValueObjectError(_))));
    assert_eq!(Latitude::max_value().value(), 9_000_000);
    assert_eq!(Longitude::min_value().value(), -18_000_000);
    assert!(Latitude::has_limit());
}

#[test]
fn coordinate_new_checks_both_axes() {
    let c = Coordinate::new(3546798, 13962607).unwrap();
    assert_eq!(c.latitude().value(), 3546798);
    assert_eq!(c.longitude().value(), 13962607);
    assert!(c.elevation().is_none());
    assert!(c.distance_from_start().is_none());
    assert!(Coordinate::new(9_100_000, 0).is_err());
    assert!(Coordinate::new(0, 18_100_000).is_err());
}

#[test]
fn elevation_is_set_once() {
    let mut c = Coordinate::new(0, 0).unwrap();
    c.set_elevation(Some(Elevation::from_value(12))).unwrap();
    assert_eq!(c.elevation, Some(Elevation::from_value(12)));
    let again = c.set_elevation(Some(Elevation::from_value(13)));
    assert!(matches!(again, Err(ApplicationError::DomainError(_))));
    assert_eq!(c.elevation, Some(Elevation::from_value(12)));
    c.set_distance_from_start(Distance::from_value(5));
    assert_eq!(c.distance_from_start, Some(Distance::from_value(5)));
}

#[test]
fn distance_must_not_be_negative() {
    assert_eq!(Distance::try_from(0).unwrap().value(), 0);
    assert!(matches!(Distance::try_from(-1), Err(ApplicationError::ValueObjectError(_))));
    assert!(Distance::zero().is_zero());
    assert!(Distance::from_value(3).validate().is_ok());
}

#[test]
fn elevation_has_no_limit() {
    assert!(!Elevation::has_limit());
    assert_eq!(Elevation::try_from(-400).unwrap().value(), -400);
    assert!(Elevation::zero().is_zero());
    assert!(Elevation::from_value(8848).validate().is_ok());
}

#[test]
fn email_validation() {
    let e = Email::try_from("luka@example.com".to_string()).unwrap();
    assert_eq!(e.as_str(), "luka@example.com");
    assert!(matches!(Email::try_from("not an email".to_string()), Err(ApplicationError::DomainError(_))));
    assert!(Email::try_from("missing-at.example.com".to_string()).is_err());
}

#[test]
fn url_validation() {
    let u = Url::try_from("https://example.com/icon.png".to_string()).unwrap();
    assert_eq!(u.as_str(), "https://example.com/icon.png");
    assert!(matches!(Url::try_from("example dot com".to_string()), Err(ApplicationError::DomainError(_))));
}

#[test]
fn polyline_keeps_its_text() {
    assert_eq!(Polyline::new().as_str(), "");
    let p = Polyline::from_string("_p~iF~ps|U".to_string());
    assert_eq!(p.as_str(), "_p~iF~ps|U");
    assert_eq!(p.into_string(), "_p~iF~ps|U".to_string());
}

#[test]
fn route_info_rename_and_clear() {
    let mut info = RouteInfo::new("route0", UserId::from_string("doncic".to_string()));
    assert_eq!(info.name, "route0");
    assert_eq!(info.op_num, 0);
    assert_eq!(info.created_at, NO_TIME);
    assert_eq!(info.id.as_str().chars().count(), 11);
    info.rename("Renamed!!!");
    assert_eq!(info.name, "Renamed!!!");
    info.op_num = 2;
    info.clear_route();
    assert_eq!(info.op_num, 0);
    assert_eq!(info.name, "Renamed!!!");
}

#[test]
fn status_codes_of_errors() {
    assert_eq!(ApplicationError::AuthError("x".into()).status_code(), 401);
    assert_eq!(ApplicationError::AuthenticationError("x".into()).status_code(), 401);
    assert_eq!(ApplicationError::AuthorizationError("x".into()).status_code(), 403);
    assert_eq!(ApplicationError::InvalidOperation("x").status_code(), 400);
    assert_eq!(ApplicationError::ValidationError("x".into()).status_code(), 400);
    assert_eq!(
        ApplicationError::ResourceNotFound { resource_name: "Route", id: "abc".into() }.status_code(),
        404
    );
    assert_eq!(ApplicationError::DataBaseError("x".into()).status_code(), 500);
    assert_eq!(ApplicationError::DomainError("x".into()).status_code(), 500);
    assert_eq!(ApplicationError::ExternalError("x".into()).status_code(), 500);
    assert_eq!(ApplicationError::UseCaseError("x".into()).status_code(), 500);
    assert_eq!(ApplicationError::ValueObjectError("x".into()).status_code(), 500);
}
