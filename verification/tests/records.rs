use family_service::error::{reply_status, Operation, ServiceError, StoreFailure};
use family_service::family::{self, Family, FamilyDB, FamilyRequest};
use family_service::identifier::Identifier;
use family_service::timestamp::{NaiveTimestamp, Timestamp};
use family_service::user::{self, User, UserDB, UserRequest};
use family_service::user_family::{self, UserFamily, UserFamilyDB, UserFamilyRequest};

const SAMPLE_BITS: u128 = 0xa1a2a3a4_b1b2_c1c2_d1d2_d3d4d5d6d7d8;
const SAMPLE_TEXT: &str = "a1a2a3a4-b1b2-c1c2-d1d2-d3d4d5d6d7d8";

fn assert_issued_shape(text: &str) {
    assert_eq!(text.len(), 36);
    for (i, c) in text.chars().enumerate() {
        if i == 8 || i == 13 || i == 18 || i == 23 {
            assert_eq!(c, '-');
        } else {
            assert!(c.is_ascii_digit() || ('a'..='f').contains(&c));
        }
    }
    assert_eq!(text.chars().nth(14), Some('4'));
    assert!(matches!(text.chars().nth(19), Some('8') | Some('9') | Some('a') | Some('b')));
}

fn seconds_now() -> i64 {
    let since = std::time::SystemTime::now().duration_since(std::time::UNIX_EPOCH).unwrap();
    since.as_secs() as i64
}

fn sample_user_row() -> UserDB {
    UserDB {
        id: Identifier { bits: SAMPLE_BITS },
        tel: "0600000000".to_string(),
        nom: "Durand".to_string(),
        email: "durand@example.org".to_string(),
        created_at: NaiveTimestamp { secs: 1_600_000_000, nanos: 123_456_789 },
    }
}

#[test]
fn row_identifier_is_rendered_in_canonical_form() {
    let user = sample_user_row().to_user();
    assert_eq!(user.id, SAMPLE_TEXT);
    let zero = UserDB { id: Identifier { bits: 0 }, ..sample_user_row() }.to_user();
    assert_eq!(zero.id, "00000000-0000-0000-0000-000000000000");
    let top = UserDB { id: Identifier { bits: u128::MAX }, ..sample_user_row() }.to_user();
    assert_eq!(top.id, "ffffffff-ffff-ffff-ffff-ffffffffffff");
}

#[test]
fn row_to_user_copies_fields_and_tags_time() {
    let user = sample_user_row().to_user();
    assert_eq!(user.tel, "0600000000");
    assert_eq!(user.nom, "Durand");
    assert_eq!(user.email, "durand@example.org");
    assert_eq!(user.created_at, Timestamp { secs: 1_600_000_000, nanos: 123_456_789 });
}

#[test]
fn with_identity_builds_exactly_what_is_given() {
    let at = Timestamp { secs: 42, nanos: 7 };
    let user = User::with_identity(
        Identifier { bits: SAMPLE_BITS },
        at,
        "01".to_string(),
        "Nom".to_string(),
        "a@b.c".to_string(),
    );
    assert_eq!(
        user,
        User {
            id: SAMPLE_TEXT.to_string(),
            tel: "01".to_string(),
            nom: "Nom".to_string(),
            email: "a@b.c".to_string(),
            created_at: at,
        }
    );
    let family = Family::with_identity(Identifier { bits: SAMPLE_BITS }, at, "Martin".to_string());
    assert_eq!(
        family,
        Family { id: SAMPLE_TEXT.to_string(), nom: "Martin".to_string(), created_at: at }
    );
}

#[test]
fn new_user_has_a_well_formed_fresh_identifier() {
    let a = User::new("1".to_string(), "A".to_string(), "a@x".to_string());
    let b = User::new("1".to_string(), "A".to_string(), "a@x".to_string());
    assert_issued_shape(&a.id);
    assert_issued_shape(&b.id);
    assert_ne!(a.id, b.id);
    assert!(user::get(&a.id).is_ok());
    assert_eq!(a.tel, "1");
    assert_eq!(a.nom, "A");
    assert_eq!(a.email, "a@x");
}

#[test]
fn many_new_families_have_distinct_identifiers() {
    let mut seen = std::collections::HashSet::new();
    for _ in 0..200 {
        let family = Family::new("Martin".to_string());
        assert_issued_shape(&family.id);
        assert!(seen.insert(family.id));
    }
}

#[test]
fn new_records_are_stamped_with_the_current_time() {
    let before = seconds_now();
    let user = User::new("1".to_string(), "A".to_string(), "a@x".to_string());
    let family = Family::new("Martin".to_string());
    let after = seconds_now();
    assert!(before <= user.created_at.secs && user.created_at.secs <= after);
    assert!(before <= family.created_at.secs && family.created_at.secs <= after);
    assert!(user.created_at.nanos < 1_000_000_000);
}

#[test]
fn user_round_trip_keeps_fields_and_takes_row_identifier() {
    let user = User::new("0600000000".to_string(), "Durand".to_string(), "d@e.f".to_string());
    let row = user.to_user_db();
    let back = row.to_user();
    assert_eq!(back.tel, user.tel);
    assert_eq!(back.nom, user.nom);
    assert_eq!(back.email, user.email);
    assert_eq!(back.created_at, user.created_at);
    assert_ne!(back.id, user.id);
    assert_eq!(user::get(&back.id), Ok(row.id));
    assert_issued_shape(&back.id);
}

#[test]
fn user_round_trip_under_a_given_identifier() {
    let at = Timestamp { secs: 1_700_000_000, nanos: 5 };
    let user = User::with_identity(
        Identifier { bits: 1 },
        at,
        "01".to_string(),
        "Nom".to_string(),
        "a@b.c".to_string(),
    );
    let row = user.to_user_db_with(Identifier { bits: SAMPLE_BITS });
    assert_eq!(row.id.bits, SAMPLE_BITS);
    assert_eq!(row.created_at, NaiveTimestamp { secs: 1_700_000_000, nanos: 5 });
    let back = row.to_user();
    assert_eq!(back, User { id: SAMPLE_TEXT.to_string(), ..user.clone() });
    assert_eq!(back.to_user_db_with(row.id), row);
}

#[test]
fn family_round_trip_keeps_name_and_time() {
    let family = Family::new("Martin".to_string());
    let row = family.to_family_db();
    let back = row.to_family();
    assert_eq!(back.nom, "Martin");
    assert_eq!(back.created_at, family.created_at);
    assert_eq!(family::get(&back.id), Ok(row.id));
}

#[test]
fn timestamps_keep_seconds_and_nanoseconds() {
    let tagged = Timestamp { secs: -5, nanos: 999_999_999 };
    let naive = tagged.naive_utc();
    assert_eq!(naive, NaiveTimestamp { secs: -5, nanos: 999_999_999 });
    assert_eq!(Timestamp::from_utc_datetime(&naive), tagged);
}

#[test]
fn complete_user_request_gives_a_user() {
    let request = UserRequest {
        tel: Some("0600000000".to_string()),
        nom: Some("Durand".to_string()),
        email: Some("d@e.f".to_string()),
    };
    let user = request.to_user().unwrap();
    assert_eq!(user.tel, "0600000000");
    assert_eq!(user.nom, "Durand");
    assert_eq!(user.email, "d@e.f");
    let row = user::create(&request).unwrap();
    assert_eq!(row.tel, "0600000000");
    assert_eq!(row.nom, "Durand");
    assert_eq!(row.email, "d@e.f");
}

#[test]
fn user_request_without_email_fails_validation() {
    let request = UserRequest {
        tel: Some("0600000000".to_string()),
        nom: Some("Durand".to_string()),
        email: None,
    };
    assert!(request.to_user().is_none());
    assert_eq!(user::create(&request), Err(ServiceError::ValidationFailed));
}

#[test]
fn user_request_with_any_field_missing_gives_nothing() {
    let some = || Some("x".to_string());
    assert!(UserRequest { tel: None, nom: some(), email: some() }.to_user().is_none());
    assert!(UserRequest { tel: some(), nom: None, email: some() }.to_user().is_none());
    assert!(UserRequest { tel: None, nom: None, email: None }.to_user().is_none());
    assert!(FamilyRequest { nom: None }.to_family().is_none());
    assert_eq!(family::create(&FamilyRequest { nom: None }), Err(ServiceError::ValidationFailed));
    assert_eq!(FamilyRequest { nom: some() }.to_family().unwrap().nom, "x");
}

#[test]
fn read_of_unknown_family_is_not_found() {
    assert_eq!(family::find_family(Ok(vec![])), Err(ServiceError::NotFound));
    assert_eq!(user::find_user(Ok(vec![])), Err(ServiceError::NotFound));
}

#[test]
fn read_takes_the_first_row() {
    let first = FamilyDB {
        id: Identifier { bits: SAMPLE_BITS },
        nom: "Martin".to_string(),
        created_at: NaiveTimestamp { secs: 10, nanos: 0 },
    };
    let second = FamilyDB { id: Identifier { bits: 2 }, nom: "Autre".to_string(), ..first.clone() };
    let found = family::find_family(Ok(vec![first.clone(), second])).unwrap();
    assert_eq!(found, first.to_family());
    assert_eq!(found.id, SAMPLE_TEXT);
    assert_eq!(user::find_user(Ok(vec![sample_user_row()])), Ok(sample_user_row().to_user()));
}

#[test]
fn store_failures_are_told_apart_from_absence() {
    assert_eq!(family::find_family(Err(StoreFailure::Failed)), Err(ServiceError::StorageError));
    assert_eq!(
        family::find_family(Err(StoreFailure::NoConnection)),
        Err(ServiceError::PoolUnavailable)
    );
    assert_eq!(user::find_user(Err(StoreFailure::Failed)), Err(ServiceError::StorageError));
    let row = sample_user_row();
    assert_eq!(user::create_user(&row, Err(StoreFailure::Failed)), Err(ServiceError::StorageError));
    assert_eq!(
        user::create_user(&row, Err(StoreFailure::NoConnection)),
        Err(ServiceError::PoolUnavailable)
    );
    assert_eq!(user::create_user(&row, Ok(())), Ok(row.to_user()));
}

#[test]
fn read_with_malformed_identifier_is_invalid_identifier() {
    assert_eq!(user::get("not-a-uuid"), Err(ServiceError::InvalidIdentifier));
    assert_eq!(family::get(""), Err(ServiceError::InvalidIdentifier));
    assert_eq!(
        family::get("a1a2a3a4-b1b2-c1c2-d1d2-d3d4d5d6d7dg"),
        Err(ServiceError::InvalidIdentifier)
    );
}

#[test]
fn read_parses_canonical_identifier() {
    assert_eq!(user::get(SAMPLE_TEXT), Ok(Identifier { bits: SAMPLE_BITS }));
    assert_eq!(family::get(SAMPLE_TEXT), Ok(Identifier { bits: SAMPLE_BITS }));
    assert_eq!(
        user::get("A1A2A3A4B1B2C1C2D1D2D3D4D5D6D7D8"),
        Ok(Identifier { bits: SAMPLE_BITS })
    );
}

#[test]
fn error_statuses_are_exact_and_distinct() {
    assert_eq!(ServiceError::ValidationFailed.status(), 422);
    assert_eq!(ServiceError::NotFound.status(), 404);
    assert_eq!(ServiceError::InvalidIdentifier.status(), 400);
    assert_eq!(ServiceError::StorageError.status(), 500);
    assert_eq!(ServiceError::PoolUnavailable.status(), 503);
    assert_eq!(StoreFailure::Failed.error(), ServiceError::StorageError);
    assert_eq!(StoreFailure::NoConnection.error(), ServiceError::PoolUnavailable);
}

#[test]
fn membership_request_is_checked_for_fields_then_identifiers() {
    let other = "00000000-0000-4000-8000-000000000001";
    let good = UserFamilyRequest {
        user_id: Some(SAMPLE_TEXT.to_string()),
        family_id: Some(other.to_string()),
        role: Some("parent".to_string()),
    };
    let row = user_family::create(&good).unwrap();
    assert_eq!(row.user_id, Identifier { bits: SAMPLE_BITS });
    assert_eq!(row.family_id, Identifier { bits: 0x00000000_0000_4000_8000_000000000001 });
    assert_eq!(row.role, "parent");

    let missing = UserFamilyRequest { role: None, ..good.clone() };
    assert!(missing.to_user_family().is_none());
    assert_eq!(user_family::create(&missing), Err(ServiceError::ValidationFailed));

    let malformed = UserFamilyRequest { family_id: Some("nope".to_string()), ..good.clone() };
    assert!(malformed.to_user_family().is_none());
    assert_eq!(user_family::create(&malformed), Err(ServiceError::InvalidIdentifier));

    let both = UserFamilyRequest { user_id: None, family_id: Some("nope".to_string()), role: None };
    assert_eq!(user_family::create(&both), Err(ServiceError::ValidationFailed));
}

#[test]
fn membership_round_trip_keeps_references_and_role() {
    let membership = UserFamily::new(
        SAMPLE_TEXT.to_string(),
        "00000000-0000-4000-8000-000000000001".to_string(),
        "enfant".to_string(),
    );
    assert_issued_shape(&membership.id);
    assert_eq!(membership.user_id.bits, SAMPLE_BITS);
    let row = membership.to_user_family_db();
    let back = row.to_user_family();
    assert_eq!(back.user_id, membership.user_id);
    assert_eq!(back.family_id, membership.family_id);
    assert_eq!(back.role, "enfant");
    assert_eq!(back.created_at, membership.created_at);
    assert_eq!(user_family::create_user_family(&row, Ok(())), Ok(back));
    assert_eq!(
        user_family::create_user_family(&row, Err(StoreFailure::Failed)),
        Err(ServiceError::StorageError)
    );
    let fixed: UserFamilyDB = membership.to_user_family_db_with(Identifier { bits: 9 });
    assert_eq!(fixed.to_user_family().id, "00000000-0000-0000-0000-000000000009");
}

#[test]
fn reply_status_follows_operation_and_error() {
    let made: Result<u8, ServiceError> = Ok(1);
    assert_eq!(reply_status(Operation::Create, &made), 201);
    assert_eq!(reply_status(Operation::Read, &made), 200);
    let missing: Result<u8, ServiceError> = Err(ServiceError::NotFound);
    assert_eq!(reply_status(Operation::Read, &missing), 404);
    let refused: Result<u8, ServiceError> = Err(ServiceError::ValidationFailed);
    assert_eq!(reply_status(Operation::Create, &refused), 422);
}
