use vantage::auth::{
    auth_response_json, clear_session_headers, map_supabase_auth_error, public_user_json,
    registration_app_metadata, registration_metadata, registration_role,
    registration_user_metadata, session_headers, supabase_auth_failure,
    update_registration_metadata,
};
use vantage::errors::AppError;
use vantage::metadata::{merge_metadata, metadata_str, set_metadata, value_str};
use vantage::models::{AuthSession, AuthUserRecord, UserRole};
use vantage::value::{Number, Object, Value};

fn auth_record() -> AuthUserRecord {
    AuthUserRecord {
        id: "11111111-1111-1111-1111-111111111111".into(),
        email: Some("owner@example.com".into()),
        user_metadata: Value::Object(
            Object::new()
                .insert("full_name", Value::text("Vantage Owner"))
                .insert("auth_provider", Value::text("email")),
        ),
        app_metadata: Value::Object(
            Object::new()
                .insert("role", Value::text("business_owner"))
                .insert("subscription_tier", Value::text("FREE")),
        ),
        created_at: Some("2026-05-19T00:00:00Z".into()),
    }
}

#[test]
fn auth_response_does_not_expose_bearer_tokens() {
    let response = auth_response_json(&auth_record());

    assert!(response.get("access_token").is_none());
    assert!(response.get("refresh_token").is_none());
    assert!(response.get("token_type").is_none());
    assert_eq!(
        metadata_str(response.get("user").unwrap(), "email"),
        Some("owner@example.com")
    );
}

#[test]
fn registration_metadata_forces_selected_role_before_login() {
    let mut record = auth_record();
    record.app_metadata = Value::Object(
        Object::new()
            .insert("role", Value::text("customer"))
            .insert("legacy", Value::text("kept")),
    );
    record.user_metadata = Value::Object(Object::new().insert(
        "preferences",
        Value::Object(Object::new().insert("preferences_completed", Value::Bool(true))),
    ));

    let (app_metadata, user_metadata) =
        registration_metadata(&record, "business_owner", Some("Fresh Owner"));

    assert_eq!(metadata_str(&app_metadata, "role"), Some("business_owner"));
    assert_eq!(metadata_str(&app_metadata, "subscription_tier"), Some("FREE"));
    assert_eq!(metadata_str(&app_metadata, "legacy"), Some("kept"));
    assert_eq!(metadata_str(&user_metadata, "full_name"), Some("Fresh Owner"));
    assert_eq!(metadata_str(&user_metadata, "name"), Some("Fresh Owner"));
    assert_eq!(metadata_str(&user_metadata, "auth_provider"), Some("email"));
    assert!(matches!(
        user_metadata.get("preferences").unwrap().get("preferences_completed"),
        Some(Value::Bool(true))
    ));
}

#[test]
fn a_shown_user_has_the_members_of_its_record() {
    let mut record = auth_record();
    set_metadata(
        &mut record.user_metadata,
        "preferences",
        Value::Object(
            Object::new()
                .insert("price_pref", Value::Number(Number::PosInt(2)))
                .insert("discovery_mode", Value::text("local")),
        ),
    );
    let shown = public_user_json(&record);

    assert_eq!(metadata_str(&shown, "id"), Some(record.id.as_str()));
    assert_eq!(metadata_str(&shown, "_id"), Some(record.id.as_str()));
    assert_eq!(metadata_str(&shown, "name"), Some("Vantage Owner"));
    assert_eq!(metadata_str(&shown, "full_name"), Some("Vantage Owner"));
    assert_eq!(metadata_str(&shown, "role"), Some("business_owner"));
    assert_eq!(metadata_str(&shown, "subscription_tier"), Some("FREE"));
    assert_eq!(metadata_str(&shown, "created_at"), Some("2026-05-19T00:00:00Z"));
    assert_eq!(metadata_str(&shown, "auth_provider"), Some("email"));
    assert_eq!(metadata_str(&shown, "discovery_mode"), Some("local"));
    assert!(shown.get("profile_picture").unwrap().is_null());
    assert!(shown.get("preferred_vibes").unwrap().is_null());
    assert!(matches!(
        shown.get("price_pref"),
        Some(Value::Number(Number::PosInt(2)))
    ));
    match shown {
        Value::Object(object) => assert_eq!(object.len(), 17),
        _ => panic!("an object"),
    }
}

#[test]
fn a_user_without_anything_is_shown_with_defaults() {
    let record = AuthUserRecord {
        id: "x".into(),
        email: None,
        user_metadata: Value::Null,
        app_metadata: Value::Array(vec![Value::Bool(true)]),
        created_at: None,
    };
    let shown = public_user_json(&record);

    assert_eq!(metadata_str(&shown, "email"), Some(""));
    assert_eq!(metadata_str(&shown, "name"), Some(""));
    assert!(shown.get("full_name").unwrap().is_null());
    assert_eq!(metadata_str(&shown, "role"), Some("customer"));
    assert_eq!(metadata_str(&shown, "subscription_tier"), Some("FREE"));
    assert!(shown.get("created_at").unwrap().is_null());
    assert!(shown.get("preferences").unwrap().is_null());
}

#[test]
fn a_blank_name_gives_way_to_the_email() {
    let mut record = auth_record();
    set_metadata(&mut record.user_metadata, "full_name", Value::text(" \u{2003}\t\u{3000} "));
    let shown = public_user_json(&record);
    assert_eq!(metadata_str(&shown, "name"), Some("owner@example.com"));
    assert_eq!(metadata_str(&shown, "full_name"), Some(" \u{2003}\t\u{3000} "));
}

#[test]
fn name_stands_in_for_full_name_only_when_that_is_no_text() {
    let mut record = auth_record();
    set_metadata(&mut record.user_metadata, "full_name", Value::Bool(true));
    set_metadata(&mut record.user_metadata, "name", Value::text("Short"));
    assert_eq!(metadata_str(&public_user_json(&record), "name"), Some("Short"));
    set_metadata(&mut record.user_metadata, "full_name", Value::text(""));
    assert_eq!(
        metadata_str(&public_user_json(&record), "name"),
        Some("owner@example.com")
    );
}

#[test]
fn only_customers_register() {
    assert_eq!(registration_role(None).unwrap(), "customer");
    assert_eq!(registration_role(Some(&UserRole::Customer)).unwrap(), "customer");
    for role in [UserRole::BusinessOwner, UserRole::Admin] {
        match registration_role(Some(&role)) {
            Err(AppError::Forbidden(message)) => {
                assert_eq!(message, "This role cannot be self-registered")
            }
            other => panic!("{other:?}"),
        }
    }
}

#[test]
fn registration_metadata_has_the_given_members() {
    let app = registration_app_metadata("customer");
    assert_eq!(metadata_str(&app, "role"), Some("customer"));
    assert_eq!(metadata_str(&app, "subscription_tier"), Some("FREE"));

    let named = registration_user_metadata(Some("Ada"));
    assert_eq!(metadata_str(&named, "full_name"), Some("Ada"));
    assert_eq!(metadata_str(&named, "name"), Some("Ada"));
    assert!(named.get("profile_picture").unwrap().is_null());
    assert_eq!(metadata_str(&named, "auth_provider"), Some("email"));

    let nameless = registration_user_metadata(None);
    assert!(nameless.get("full_name").unwrap().is_null());
    assert!(nameless.get("name").unwrap().is_null());
}

#[test]
fn a_registration_without_a_name_keeps_the_one_that_is_there() {
    let patch = update_registration_metadata(&auth_record(), "customer", None);
    assert_eq!(patch.id, "11111111-1111-1111-1111-111111111111");
    let user_metadata = patch.body.get("user_metadata").unwrap();
    assert_eq!(metadata_str(user_metadata, "full_name"), Some("Vantage Owner"));
    assert!(user_metadata.get("profile_picture").is_none());
    let app_metadata = patch.body.get("app_metadata").unwrap();
    assert_eq!(metadata_str(app_metadata, "role"), Some("customer"));
}

#[test]
fn merging_writes_members_but_no_nulls() {
    let mut target = Value::Object(
        Object::new().insert("a", Value::text("old")).insert("b", Value::text("kept")),
    );
    let patch = Value::Object(
        Object::new()
            .insert("a", Value::text("new"))
            .insert("b", Value::Null)
            .insert("c", Value::Bool(false)),
    );
    merge_metadata(&mut target, patch.clone());
    assert_eq!(metadata_str(&target, "a"), Some("new"));
    assert_eq!(metadata_str(&target, "b"), Some("kept"));
    assert!(matches!(target.get("c"), Some(Value::Bool(false))));

    merge_metadata(&mut target, patch);
    assert_eq!(metadata_str(&target, "a"), Some("new"));
    match &target {
        Value::Object(object) => assert_eq!(object.len(), 3),
        _ => panic!("an object"),
    }
}

#[test]
fn merging_into_what_is_no_object_makes_one() {
    let mut target = Value::text("text");
    merge_metadata(&mut target, Value::Object(Object::new().insert("a", Value::text("x"))));
    assert_eq!(metadata_str(&target, "a"), Some("x"));
    let mut target = Value::Bool(true);
    merge_metadata(&mut target, Value::Null);
    match target {
        Value::Object(object) => assert_eq!(object.len(), 0),
        _ => panic!("an object"),
    }
}

#[test]
fn what_is_put_is_found() {
    let mut metadata = Value::Null;
    set_metadata(&mut metadata, "k", Value::text("v"));
    set_metadata(&mut metadata, "l", Value::text("w"));
    set_metadata(&mut metadata, "k", Value::text("u"));
    assert_eq!(metadata_str(&metadata, "k"), Some("u"));
    assert_eq!(metadata_str(&metadata, "l"), Some("w"));
    assert_eq!(value_str(&metadata, "l"), "w");
    assert_eq!(value_str(&metadata, "m"), "");
}

#[test]
fn objects_list_their_members() {
    let object = Object::new()
        .insert("a", Value::text("1"))
        .insert("b", Value::Null)
        .insert("a", Value::text("2"));
    assert_eq!(object.len(), 2);
    assert_eq!(object.entry(0).0, "a");
    assert_eq!(object.entry(0).1.as_str(), Some("2"));
    assert_eq!(object.entry(1).0, "b");
    let copy = Value::Array(vec![Value::Object(object), Value::Number(Number::Float(7))]).clone();
    match copy {
        Value::Array(values) => {
            assert_eq!(metadata_str(&values[0], "a"), Some("2"));
            assert!(matches!(values[1], Value::Number(Number::Float(7))));
        }
        _ => panic!("an array"),
    }
}

fn conflict(message: &str) -> bool {
    matches!(supabase_auth_failure(message), AppError::Conflict(m) if m == "Email already registered")
}

#[test]
fn messages_of_the_authentication_service_are_understood() {
    assert!(conflict("User ALREADY there"));
    assert!(conflict("this is Registered"));
    assert!(conflict("it exists, but is not configured"));
    assert!(matches!(
        supabase_auth_failure("Supabase Not Configured; invalid login"),
        AppError::Internal(m) if m == "Supabase is not configured"
    ));
    assert!(matches!(
        supabase_auth_failure("Invalid Login details"),
        AppError::Unauthorized(m) if m == "Invalid credentials"
    ));
    assert!(matches!(
        supabase_auth_failure("INVALID CREDENTIALS"),
        AppError::Unauthorized(_)
    ));
    assert!(matches!(
        supabase_auth_failure("connection reset"),
        AppError::Internal(m) if m == "Authentication service unavailable"
    ));
    assert!(matches!(supabase_auth_failure(""), AppError::Internal(_)));
}

#[test]
fn errors_of_the_authentication_service_are_read_by_what_they_print() {
    let error = anyhow::Error::msg("low").context("Email already registered here");
    assert!(matches!(map_supabase_auth_error(error), AppError::Conflict(_)));
    let error = anyhow::Error::msg("already").context("outermost");
    assert!(matches!(
        map_supabase_auth_error(error),
        AppError::Internal(m) if m == "Authentication service unavailable"
    ));
}

#[test]
fn cookies_become_headers_in_their_order() {
    let session = AuthSession {
        user: auth_record(),
        cookies: vec![
            "access=1; HttpOnly".into(),
            "bad\nvalue".into(),
            "refresh=\u{e9}\t2".into(),
            "gone\u{7f}".into(),
        ],
    };
    let headers = session_headers(&session);
    let values: Vec<&[u8]> = headers.get_all("set-cookie").iter().map(|v| v.as_bytes()).collect();
    assert_eq!(values, vec![&b"access=1; HttpOnly"[..], "refresh=\u{e9}\t2".as_bytes()]);
    assert_eq!(headers.len(), 2);

    assert_eq!(clear_session_headers(&vec![]).len(), 0);
    let headers = clear_session_headers(&vec!["access=; Max-Age=0".to_string()]);
    assert_eq!(headers.get("set-cookie").unwrap().as_bytes(), b"access=; Max-Age=0");
}

#[test]
fn many_cookies_fit() {
    let cookies: Vec<String> = (0..40000).map(|i| format!("c{i}=1")).collect();
    assert_eq!(clear_session_headers(&cookies).len(), 40000);
}
