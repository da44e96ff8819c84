use route_bucket::auth::{select_key, token_from_header, trim, GoogleAccessToken, Jwk};
use route_bucket::error::ApplicationError;
use route_bucket::permission::{authorize, authorize_user, find_type, Permission, PermissionType};
use route_bucket::reserved::{split_lines, ReservedUidsReader, UPDATE_INTERVAL_MS};
use route_bucket::responses::{UserValidateResponse, ValidationErrorCode};
use route_bucket::route_info::RouteId;
use route_bucket::types::{Email, Url};
use route_bucket::user::{
    validate_birthdate, validate_birthdate_on, Date, Gender, User, UserAuthInfo, UserCreateRequest, UserField,
    UserId, UserUpdateRequest, UserValidateRequest,
};

fn uid(s: &str) -> UserId {
    UserId::from_string(s.to_string())
}

fn date(year: i32, month: u32, day: u32) -> Date {
    Date { year, month, day }
}

#[test]
fn user_id_pattern() {
    assert!(uid("luka7doncic").is_valid());
    assert!(uid("a").is_valid());
    assert!(uid("kristaps-porzingis").is_valid());
    assert!(!uid("-doncic").is_valid());
    assert!(!uid("doncic--luka").is_valid());
    assert!(!uid("doncic_luka").is_valid());
    assert!(!uid("").is_valid());
    assert!(uid(&"a".repeat(39)).is_valid());
    assert!(!uid(&"a".repeat(40)).is_valid());
    assert!(uid(&format!("a{}", "-a".repeat(38))).is_valid());
    assert!(!uid(&format!("a{}", "-a".repeat(39))).is_valid());
    assert!(!uid("doncic-").is_valid());
}

#[test]
fn birthdate_must_not_be_in_the_future() {
    let today = date(2021, 6, 15);
    assert!(validate_birthdate_on(&date(1999, 2, 28), &today).is_ok());
    assert!(validate_birthdate_on(&today, &today).is_ok());
    assert_eq!(validate_birthdate_on(&date(2021, 6, 16), &today), Err("FUTURE_BIRTHDATE"));
    let (r, now) = validate_birthdate(&date(2000, 1, 1));
    assert!(r.is_ok());
    assert!(now.year >= 2000 && (1..=12).contains(&now.month) && (1..=31).contains(&now.day));
    let (r, _) = validate_birthdate(&date(9999, 1, 1));
    assert_eq!(r, Err("FUTURE_BIRTHDATE"));
}

#[test]
fn gender_names_and_default() {
    assert_eq!(Gender::default(), Gender::Others);
    assert_eq!(Gender::Male.as_str(), "male");
    assert_eq!(Gender::from_str("female"), Some(Gender::Female));
    assert_eq!(Gender::from_str("others"), Some(Gender::Others));
    assert_eq!(Gender::from_str("Male"), None);
}

fn form() -> UserValidateRequest {
    UserValidateRequest {
        id: Some(uid("luka7doncic")),
        name: Some("Luka Doncic".to_string()),
        email: Some(Email::try_from("luka@example.com".to_string()).unwrap()),
        birthdate: Some(date(1999, 2, 28)),
        icon_url: Some(Url::try_from("https://example.com/luka.png".to_string()).unwrap()),
        password: Some("password".to_string()),
    }
}

#[test]
fn validate_request_lists_malformed_fields_in_order() {
    let today = date(2021, 6, 15);
    assert!(form().invalid_fields(&today).is_empty());
    assert!(form().validate(&today).is_ok());
    let mut bad = form();
    bad.id = Some(uid("-luka"));
    bad.name = Some(String::new());
    bad.birthdate = Some(date(2030, 1, 1));
    bad.password = Some("12345".to_string());
    assert_eq!(
        bad.invalid_fields(&today),
        vec![UserField::Id, UserField::Name, UserField::Birthdate, UserField::Password]
    );
    assert!(matches!(bad.validate(&today), Err(ApplicationError::ValidationError(_))));
    let empty = UserValidateRequest { id: None, name: None, email: None, birthdate: None, icon_url: None, password: None };
    assert!(empty.validate(&today).is_ok());
    let mut long_name = form();
    long_name.name = Some("x".repeat(51));
    assert_eq!(long_name.invalid_fields(&today), vec![UserField::Name]);
}

#[test]
fn create_request_into_parts() {
    let today = date(2021, 6, 15);
    let req = UserCreateRequest {
        id: uid("luka7doncic"),
        name: "Luka".to_string(),
        email: Email::try_from("luka@example.com".to_string()).unwrap(),
        gender: Gender::Male,
        birthdate: None,
        icon_url: None,
        password: "password".to_string(),
    };
    let (user, email, password) = req.into_parts(&today).unwrap();
    assert_eq!(user.id.as_str(), "luka7doncic");
    assert_eq!(user.name, "Luka");
    assert_eq!(user.gender, Gender::Male);
    assert_eq!(email.as_str(), "luka@example.com");
    assert_eq!(password, "password");
    let bad = UserCreateRequest {
        id: uid("luka7doncic"),
        name: "Luka".to_string(),
        email: Email::try_from("luka@example.com".to_string()).unwrap(),
        gender: Gender::Male,
        birthdate: None,
        icon_url: None,
        password: "pw".to_string(),
    };
    assert_eq!(bad.invalid_fields(&today), vec![UserField::Password]);
    assert!(matches!(bad.into_parts(&today), Err(ApplicationError::ValidationError(_))));
}

#[test]
fn update_request_replaces_given_fields() {
    let mut user = User::new(uid("luka7doncic"), "Luka".to_string(), Gender::Male, None, None);
    let req = UserUpdateRequest { name: Some("Luka Doncic".to_string()), gender: None, birthdate: Some(date(1999, 2, 28)), icon_url: None };
    assert!(req.invalid_fields(&date(2021, 1, 1)).is_empty());
    req.apply_to(&mut user);
    assert_eq!(user.name, "Luka Doncic");
    assert_eq!(user.gender, Gender::Male);
    assert_eq!(user.birthdate, Some(date(1999, 2, 28)));
}

#[test]
fn validate_response_codes() {
    let r = UserValidateResponse::from_checks(&vec![UserField::Name], Some(true), Some(true), Some(true));
    assert_eq!(r.get(UserField::Name), Some(ValidationErrorCode::InvalidFormat));
    assert_eq!(r.get(UserField::Id), Some(ValidationErrorCode::ReservedWord));
    assert_eq!(r.get(UserField::Email), Some(ValidationErrorCode::AlreadyExists));
    assert_eq!(r.get(UserField::Password), None);
    let r = UserValidateResponse::from_checks(&vec![], Some(false), Some(true), None);
    assert_eq!(r.get(UserField::Id), Some(ValidationErrorCode::AlreadyExists));
    assert_eq!(r.entries().len(), 1);
    let mut r = UserValidateResponse::new();
    r.insert(UserField::Id, ValidationErrorCode::InvalidFormat);
    r.insert(UserField::Id, ValidationErrorCode::ReservedWord);
    assert_eq!(r.entries().len(), 1);
    assert_eq!(r.get(UserField::Id), Some(ValidationErrorCode::ReservedWord));
    assert_eq!(UserField::IconUrl.as_str(), "icon_url");
}

#[test]
fn permission_levels() {
    assert!(PermissionType::NoAccess.le(&PermissionType::Viewer));
    assert!(PermissionType::Editor.le(&PermissionType::Owner));
    assert!(!PermissionType::Owner.le(&PermissionType::Editor));
    assert_eq!(PermissionType::NoAccess.as_str(), "none");
    assert_eq!(PermissionType::from_str("editor"), Some(PermissionType::Editor));
    assert_eq!(PermissionType::from_str("admin"), None);
    assert!(authorize(PermissionType::Owner, PermissionType::Editor).is_ok());
    assert!(matches!(
        authorize(PermissionType::Viewer, PermissionType::Editor),
        Err(ApplicationError::AuthorizationError(_))
    ));
    let p = Permission::new(RouteId::new(), uid("doncic"), PermissionType::Viewer);
    assert_eq!(p.permission_type, PermissionType::Viewer);
}

#[test]
fn permission_of_a_user_on_a_route() {
    let owner = uid("doncic");
    assert_eq!(find_type(&owner, false, &Some(uid("doncic")), None), PermissionType::Owner);
    assert_eq!(find_type(&owner, false, &Some(uid("porzingis")), Some(PermissionType::Editor)), PermissionType::Editor);
    assert_eq!(find_type(&owner, true, &Some(uid("porzingis")), None), PermissionType::Viewer);
    assert_eq!(find_type(&owner, false, &Some(uid("porzingis")), None), PermissionType::NoAccess);
    assert_eq!(find_type(&owner, true, &None, Some(PermissionType::Owner)), PermissionType::Viewer);
    assert_eq!(find_type(&owner, false, &None, None), PermissionType::NoAccess);
    let route = RouteId::from_string("abcdefghijk".to_string());
    assert!(authorize_user(&route, &owner, false, &Some(uid("doncic")), None, PermissionType::Owner).is_ok());
    assert_eq!(
        authorize_user(&route, &owner, true, &None, None, PermissionType::Editor),
        Err(ApplicationError::AuthorizationError(
            "Unauthenticated user doesn't have editor permission on Route abcdefghijk (actual permission: viewer)."
                .to_string()
        ))
    );
    assert_eq!(
        authorize_user(&route, &owner, false, &Some(uid("porzingis")), None, PermissionType::Viewer),
        Err(ApplicationError::AuthorizationError(
            "User porzingis doesn't have viewer permission on Route abcdefghijk (actual permission: none)."
                .to_string()
        ))
    );
}

#[test]
fn bearer_tokens() {
    assert_eq!(token_from_header(Some("Bearer abc.def")), Ok("abc.def".to_string()));
    assert_eq!(token_from_header(Some("bearer   tok \t")), Ok("tok".to_string()));
    assert_eq!(token_from_header(Some("Bearer")), Ok(String::new()));
    assert_eq!(token_from_header(Some("Bearertok")), Ok("tok".to_string()));
    assert!(matches!(token_from_header(Some("Basic abc")), Err(ApplicationError::AuthError(_))));
    assert!(matches!(token_from_header(None), Err(ApplicationError::AuthError(_))));
    let info = UserAuthInfo::from_header(uid("doncic"), Some("Bearer xyz")).unwrap();
    assert_eq!(info.id.as_str(), "doncic");
    assert_eq!(info.token, "xyz");
    assert!(UserAuthInfo::from_header(uid("doncic"), Some("Token xyz")).is_err());
}

#[test]
fn trims_unicode_whitespace_like_std() {
    for s in ["  a b  ", "\u{3000}x\u{2029}", "", "   ", "\u{85}y", "no-space"] {
        assert_eq!(trim(s), s.trim());
    }
}

fn jwk(kid: &str, n: &str) -> Jwk {
    Jwk { e: "AQAB".into(), alg: "RS256".into(), kty: "RSA".into(), kid: kid.into(), n: n.into() }
}

#[test]
fn selects_the_signing_key_by_kid() {
    let keys = vec![jwk("k1", "n1"), jwk("k2", "n2"), jwk("k1", "n3")];
    assert_eq!(select_key(&keys, Some("k2")), Ok(1));
    assert_eq!(select_key(&keys, Some("k1")), Ok(2));
    assert!(matches!(select_key(&keys, Some("k3")), Err(ApplicationError::AuthenticationError(_))));
    assert!(matches!(select_key(&keys, None), Err(ApplicationError::AuthenticationError(_))));
}

#[test]
fn access_token_refresh_bookkeeping() {
    let mut token = GoogleAccessToken::new();
    assert!(token.has_expired(0));
    assert_eq!(GoogleAccessToken::claims_window(1000), (1000, 1060));
    token.apply_response(Some("tok".to_string()), Some(3600), 1000).unwrap();
    assert_eq!(token.token, "tok");
    assert_eq!(token.expires_at, 4590);
    assert!(!token.has_expired(4590));
    assert!(token.has_expired(4591));
    let r = token.apply_response(Some("tok2".to_string()), None, 5000);
    assert!(matches!(r, Err(ApplicationError::AuthError(_))));
    assert_eq!(token.token, "tok2");
    assert_eq!(token.expires_at, 4590);
    let r = token.apply_response(None, Some(10), 5000);
    assert!(matches!(r, Err(ApplicationError::AuthError(_))));
    assert_eq!(token.token, "tok2");
}

#[test]
fn reserved_ids_are_read_per_line() {
    let lines = split_lines("admin\nroot\n");
    assert_eq!(lines, vec!["admin".to_string(), "root".to_string(), String::new()]);
    assert_eq!(split_lines(""), vec![String::new()]);
    let mut reader = ReservedUidsReader::new();
    assert!(reader.needs_update(0));
    reader.update("admin\nroot", 1000);
    assert_eq!(reader.next_update_time, 1000 + UPDATE_INTERVAL_MS);
    assert!(!reader.needs_update(1000));
    assert!(reader.needs_update(1000 + UPDATE_INTERVAL_MS));
    assert!(reader.contains(&uid("root")));
    assert!(!reader.contains(&uid("doncic")));
    let (due, now) = reader.due_now();
    assert_eq!(due, reader.needs_update(now));
}

#[test]
fn can_validate() {
    let req = UserValidateRequest {
        id: Some(uid("doncic")),
        name: None,
        email: Some(Email::try_from("unknown@example.com".to_string()).unwrap()),
        birthdate: None,
        icon_url: None,
        password: Some("short".to_string()),
    };
    let format_errors = req.invalid_fields(&date(2021, 6, 15));
    assert_eq!(format_errors, vec![UserField::Password]);
    // the id is not reserved but already in use; the e-mail address is free
    let resp = UserValidateResponse::from_checks(&format_errors, Some(false), Some(true), Some(false));
    assert_eq!(resp.get(UserField::Id), Some(ValidationErrorCode::AlreadyExists));
    assert_eq!(resp.get(UserField::Password), Some(ValidationErrorCode::InvalidFormat));
    assert_eq!(resp.entries().len(), 2);
}

#[test]
fn calendar_dates() {
    assert_eq!(Date::from_ymd(2024, 2, 29), Some(date(2024, 2, 29)));
    assert_eq!(Date::from_ymd(2023, 2, 29), None);
    assert_eq!(Date::from_ymd(1900, 2, 29), None);
    assert_eq!(Date::from_ymd(2000, 2, 29), Some(date(2000, 2, 29)));
    assert_eq!(Date::from_ymd(-4, 2, 29), Some(date(-4, 2, 29)));
    assert_eq!(Date::from_ymd(2021, 4, 31), None);
    assert_eq!(Date::from_ymd(2021, 13, 1), None);
    assert_eq!(Date::from_ymd(2021, 1, 0), None);
    assert_eq!(Date::from_ymd(262143, 1, 1), None);
    assert_eq!(Date::from_ymd(262142, 12, 31), Some(date(262142, 12, 31)));
}
