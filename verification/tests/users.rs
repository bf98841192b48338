use vantage::account::{
    change_password, update_me, update_preferences, PasswordStep, PreferencesStep, UpdateMeStep,
};
use vantage::errors::AppError;
use vantage::metadata::metadata_str;
use vantage::models::{AuthUser, AuthUserRecord};
use vantage::users::{get_me, get_me_found, get_user_profile, user_json, ProfileStep};
use vantage::value::{Object, Value};

fn sample_user() -> AuthUserRecord {
    AuthUserRecord {
        id: "550e8400-e29b-41d4-a716-446655440000".into(),
        email: Some("private@example.com".into()),
        user_metadata: Value::Object(
            Object::new()
                .insert("full_name", Value::text("Private User"))
                .insert("about_me", Value::text("Public bio")),
        ),
        app_metadata: Value::Object(
            Object::new()
                .insert("role", Value::text("customer"))
                .insert("subscription_tier", Value::text("FREE")),
        ),
        created_at: Some("2026-05-19T00:00:00Z".into()),
    }
}

fn nameless_user() -> AuthUserRecord {
    AuthUserRecord {
        id: "550e8400-e29b-41d4-a716-446655440001".into(),
        email: Some("hidden@example.com".into()),
        user_metadata: Value::Object(Object::new()),
        app_metadata: Value::Object(Object::new().insert("role", Value::text("customer"))),
        created_at: None,
    }
}

fn auth_user() -> AuthUser {
    AuthUser {
        id: "u1".into(),
        email: "u1@example.com".into(),
        name: "U One".into(),
        role: "customer".into(),
    }
}

#[test]
fn public_profile_json_excludes_email() {
    let value = user_json(&sample_user(), false);
    assert!(value.get("email").is_none());
    assert_eq!(metadata_str(&value, "name"), Some("Private User"));
    assert_eq!(metadata_str(&value, "about_me"), Some("Public bio"));
}

#[test]
fn private_profile_json_includes_email() {
    let value = user_json(&sample_user(), true);
    assert_eq!(metadata_str(&value, "email"), Some("private@example.com"));
}

#[test]
fn public_profile_without_name_does_not_fallback_to_email() {
    let value = user_json(&nameless_user(), false);
    assert!(value.get("email").is_none());
    assert_eq!(metadata_str(&value, "name"), Some("Vantage user"));
}

#[test]
fn a_private_profile_falls_back_to_the_email() {
    let value = user_json(&nameless_user(), true);
    assert_eq!(metadata_str(&value, "name"), Some("hidden@example.com"));
    assert_eq!(metadata_str(&value, "subscription_tier"), Some("FREE"));
    assert!(value.get("created_at").unwrap().is_null());
    match value {
        Value::Object(object) => assert_eq!(object.len(), 17),
        _ => panic!("an object"),
    }
}

#[test]
fn a_public_profile_hides_administrators_and_tiers() {
    let mut user = sample_user();
    user.app_metadata = Value::Object(
        Object::new()
            .insert("role", Value::text("admin"))
            .insert("subscription_tier", Value::text("PRO")),
    );
    let public = user_json(&user, false);
    assert_eq!(metadata_str(&public, "role"), Some("customer"));
    assert!(public.get("subscription_tier").is_none());
    let private = user_json(&user, true);
    assert_eq!(metadata_str(&private, "role"), Some("admin"));
    assert_eq!(metadata_str(&private, "subscription_tier"), Some("PRO"));

    user.app_metadata = Value::Object(Object::new().insert("role", Value::text("business_owner")));
    assert_eq!(metadata_str(&user_json(&user, false), "role"), Some("business_owner"));
}

#[test]
fn a_user_asks_about_itself() {
    assert_eq!(get_me(&auth_user()), "u1");
    let body = get_me_found(Ok(sample_user())).unwrap();
    assert_eq!(metadata_str(&body, "email"), Some("private@example.com"));
    match get_me_found(Err(anyhow::Error::msg("down"))) {
        Err(AppError::Other(error)) => assert_eq!(error.to_string(), "down"),
        other => panic!("{other:?}"),
    }
}

#[test]
fn a_profile_is_public() {
    let next = match get_user_profile("raw".into()) {
        ProfileStep::CheckId(next, check) => {
            assert_eq!(check.id, "raw");
            assert_eq!(check.label, "user ID");
            next
        }
        other => panic!("{other:?}"),
    };
    let next = match next.resume(Ok("clean".into())) {
        ProfileStep::GetUser(next, id) => {
            assert_eq!(id, "clean");
            next
        }
        other => panic!("{other:?}"),
    };
    match next.resume(Ok(sample_user())) {
        ProfileStep::Done(Ok(body)) => assert!(body.get("email").is_none()),
        other => panic!("{other:?}"),
    }
}

#[test]
fn a_profile_needs_an_id() {
    let next = match get_user_profile("raw".into()) {
        ProfileStep::CheckId(next, _) => next,
        other => panic!("{other:?}"),
    };
    match next.resume(Err(AppError::BadRequest("Invalid user ID".into()))) {
        ProfileStep::Done(Err(AppError::BadRequest(m))) => assert_eq!(m, "Invalid user ID"),
        other => panic!("{other:?}"),
    }
}

#[test]
fn a_whole_profile_is_changed_step_by_step() {
    let payload = Value::Object(
        Object::new()
            .insert("name", Value::text(" New "))
            .insert("full_name", Value::text("unused"))
            .insert("profile_picture", Value::text("http://p"))
            .insert("about_me", Value::text("me")),
    );
    let next = match update_me(&auth_user(), payload) {
        UpdateMeStep::GetUser(next, id) => {
            assert_eq!(id, "u1");
            next
        }
        other => panic!("{other:?}"),
    };
    let next = match next.resume(Ok(sample_user())) {
        UpdateMeStep::SanitizeName(next, request) => {
            assert_eq!(request.text.as_deref(), Some(" New "));
            assert_eq!(request.limit, 120);
            next
        }
        other => panic!("{other:?}"),
    };
    let next = match next.resume("New".into()) {
        UpdateMeStep::NormalizeUrl(next, request) => {
            assert_eq!(request.url, "http://p");
            assert_eq!(request.limit, 500);
            assert!(!request.switch);
            next
        }
        other => panic!("{other:?}"),
    };
    let next = match next.resume(Ok(Some("https://p/".into()))) {
        UpdateMeStep::SanitizeAbout(next, request) => {
            assert_eq!(request.text.as_deref(), Some("me"));
            assert_eq!(request.limit, 500);
            next
        }
        other => panic!("{other:?}"),
    };
    let next = match next.resume(None) {
        UpdateMeStep::UpdateUser(next, patch) => {
            assert_eq!(patch.id, "u1");
            let metadata = patch.body.get("user_metadata").unwrap();
            assert_eq!(metadata_str(metadata, "full_name"), Some("New"));
            assert_eq!(metadata_str(metadata, "name"), Some("New"));
            assert_eq!(metadata_str(metadata, "profile_picture"), Some("https://p/"));
            assert_eq!(metadata_str(metadata, "about_me"), Some("Public bio"));
            next
        }
        other => panic!("{other:?}"),
    };
    match next.resume(Ok(sample_user())) {
        UpdateMeStep::Done(Ok(body)) => {
            assert_eq!(metadata_str(&body, "email"), Some("private@example.com"))
        }
        other => panic!("{other:?}"),
    }
}

#[test]
fn an_empty_change_of_a_profile_writes_what_is_there() {
    let next = match update_me(&auth_user(), Value::Null) {
        UpdateMeStep::GetUser(next, _) => next,
        other => panic!("{other:?}"),
    };
    match next.resume(Ok(sample_user())) {
        UpdateMeStep::UpdateUser(_, patch) => {
            let metadata = patch.body.get("user_metadata").unwrap();
            assert_eq!(metadata_str(metadata, "full_name"), Some("Private User"));
            assert_eq!(metadata_str(metadata, "about_me"), Some("Public bio"));
        }
        other => panic!("{other:?}"),
    }
}

#[test]
fn a_bad_picture_ends_the_change() {
    let payload = Value::Object(
        Object::new()
            .insert("full_name", Value::Bool(true))
            .insert("profile_picture", Value::text("nope")),
    );
    let next = match update_me(&auth_user(), payload) {
        UpdateMeStep::GetUser(next, _) => next,
        other => panic!("{other:?}"),
    };
    let next = match next.resume(Ok(sample_user())) {
        UpdateMeStep::NormalizeUrl(next, _) => next,
        other => panic!("{other:?}"),
    };
    match next.resume(Err(AppError::BadRequest("Invalid URL".into()))) {
        UpdateMeStep::Done(Err(AppError::BadRequest(m))) => assert_eq!(m, "Invalid URL"),
        other => panic!("{other:?}"),
    }
}

#[test]
fn preferences_are_put_beside_the_rest() {
    let preferences = Value::Object(Object::new().insert("price_pref", Value::text("low")));
    let next = match update_preferences(&auth_user(), preferences) {
        PreferencesStep::GetUser(next, id) => {
            assert_eq!(id, "u1");
            next
        }
        other => panic!("{other:?}"),
    };
    let next = match next.resume(Ok(sample_user())) {
        PreferencesStep::UpdateUser(next, patch) => {
            let metadata = patch.body.get("user_metadata").unwrap();
            assert_eq!(metadata_str(metadata, "full_name"), Some("Private User"));
            let preferences = metadata.get("preferences").unwrap();
            assert_eq!(metadata_str(preferences, "price_pref"), Some("low"));
            next
        }
        other => panic!("{other:?}"),
    };
    assert!(matches!(
        next.resume(Err(anyhow::Error::msg("x"))),
        PreferencesStep::Done(Err(AppError::Other(_)))
    ));
}

fn passwords() -> Value {
    Value::Object(
        Object::new()
            .insert("current_password", Value::text("old"))
            .insert("new_password", Value::text("new")),
    )
}

#[test]
fn a_change_of_password_needs_both() {
    let required = |payload: Value| match change_password(&auth_user(), &payload) {
        PasswordStep::Done(Err(AppError::BadRequest(m))) => m,
        other => panic!("{other:?}"),
    };
    assert_eq!(required(Value::Null), "current_password required");
    assert_eq!(
        required(Value::Object(Object::new().insert("new_password", Value::text("new")))),
        "current_password required"
    );
    assert_eq!(
        required(Value::Object(Object::new().insert("current_password", Value::text("old")))),
        "new_password required"
    );
}

#[test]
fn a_password_is_changed_step_by_step() {
    let next = match change_password(&auth_user(), &passwords()) {
        PasswordStep::CheckPassword(next, password) => {
            assert_eq!(password, "new");
            next
        }
        other => panic!("{other:?}"),
    };
    let next = match next.resume(Ok(())) {
        PasswordStep::LogIn(next, credentials) => {
            assert_eq!(credentials.email, "u1@example.com");
            assert_eq!(credentials.password, "old");
            next
        }
        other => panic!("{other:?}"),
    };
    let next = match next.resume(Ok(())) {
        PasswordStep::UpdateUser(next, patch) => {
            assert_eq!(patch.id, "u1");
            assert_eq!(metadata_str(&patch.body, "password"), Some("new"));
            next
        }
        other => panic!("{other:?}"),
    };
    match next.resume(Ok(())) {
        PasswordStep::Done(Ok(body)) => assert_eq!(
            metadata_str(&body, "message"),
            Some("Password changed successfully")
        ),
        other => panic!("{other:?}"),
    }
}

#[test]
fn a_wrong_password_is_unauthorized() {
    let next = match change_password(&auth_user(), &passwords()) {
        PasswordStep::CheckPassword(next, _) => next,
        other => panic!("{other:?}"),
    };
    let next = match next.resume(Ok(())) {
        PasswordStep::LogIn(next, _) => next,
        other => panic!("{other:?}"),
    };
    match next.resume(Err(anyhow::Error::msg("already registered"))) {
        PasswordStep::Done(Err(AppError::Unauthorized(m))) => {
            assert_eq!(m, "Invalid current password")
        }
        other => panic!("{other:?}"),
    }
}

#[test]
fn a_weak_password_is_refused() {
    let next = match change_password(&auth_user(), &passwords()) {
        PasswordStep::CheckPassword(next, _) => next,
        other => panic!("{other:?}"),
    };
    assert!(matches!(
        next.resume(Err(AppError::BadRequest("weak".into()))),
        PasswordStep::Done(Err(AppError::BadRequest(m))) if m == "weak"
    ));
}

#[test]
fn a_public_profile_does_not_depend_on_the_email() {
    for mut user in [sample_user(), nameless_user()] {
        let before = format!("{:?}", user_json(&user, false));
        user.email = None;
        assert_eq!(format!("{:?}", user_json(&user, false)), before);
    }
}

#[test]
fn a_change_of_a_profile_keeps_other_members() {
    let payload = Value::Object(Object::new().insert("full_name", Value::text("New")));
    let next = match update_me(&auth_user(), payload) {
        UpdateMeStep::GetUser(next, _) => next,
        other => panic!("{other:?}"),
    };
    let mut user = sample_user();
    user.user_metadata = Value::Object(
        Object::new()
            .insert("auth_provider", Value::text("google"))
            .insert("preferences", Value::Array(vec![Value::Bool(true)])),
    );
    let next = match next.resume(Ok(user)) {
        UpdateMeStep::SanitizeName(next, _) => next,
        other => panic!("{other:?}"),
    };
    match next.resume("New".into()) {
        UpdateMeStep::UpdateUser(_, patch) => {
            let metadata = patch.body.get("user_metadata").unwrap();
            assert_eq!(metadata_str(metadata, "auth_provider"), Some("google"));
            assert_eq!(metadata_str(metadata, "name"), Some("New"));
            assert!(matches!(metadata.get("preferences"), Some(Value::Array(_))));
            assert!(metadata.get("about_me").is_none());
        }
        other => panic!("{other:?}"),
    }
}
