use vantage::errors::AppError;
use vantage::metadata::metadata_str;
use vantage::models::{
    AuthSession, AuthUser, AuthUserRecord, GoogleAuthRequest, UserCreate, UserLogin, UserRole,
};
use vantage::register::{
    normalize_email, register, RegisterCaptcha, RegisterCreate, RegisterLogin, RegisterName,
    RegisterPassword, RegisterStep, RegisterUpdate,
};
use vantage::sign_in::{
    ensure_auth_defaults, google_auth, login, logout, me, me_found, Defaults, LogoutStep,
    SignInStep,
};
use vantage::value::{Object, Value};

fn payload(role: Option<UserRole>, token: Option<&str>) -> UserCreate {
    UserCreate {
        email: " \u{a0}New.User@Example.COM\n".into(),
        password: " Secret 1".into(),
        full_name: Some("New  User".into()),
        role,
        recaptcha_token: token.map(|t| t.into()),
    }
}

fn record(id: &str, app_metadata: Value, user_metadata: Value) -> AuthUserRecord {
    AuthUserRecord {
        id: id.into(),
        email: Some("new.user@example.com".into()),
        user_metadata,
        app_metadata,
        created_at: None,
    }
}

fn texts(members: &[(&str, &str)]) -> Value {
    let mut object = Object::new();
    for (key, text) in members {
        object = object.insert(key, Value::text(text));
    }
    Value::Object(object)
}

fn field_errors() -> validator::ValidationErrors {
    let mut errors = validator::ValidationErrors::new();
    errors.add("email", validator::ValidationError::new("email"));
    errors
}

fn password_step(payload: UserCreate, recaptcha_enabled: bool) -> RegisterPassword {
    match register(payload, Ok(()), recaptcha_enabled) {
        RegisterStep::CheckPassword(next, password) => {
            assert_eq!(password, " Secret 1");
            next
        }
        other => panic!("{other:?}"),
    }
}

fn captcha_step(token: &str) -> (RegisterCaptcha, String) {
    match password_step(payload(None, Some(token)), true).resume(Ok(())) {
        RegisterStep::VerifyCaptcha(next, asked) => (next, asked),
        other => panic!("{other:?}"),
    }
}

fn name_step() -> RegisterName {
    match password_step(payload(Some(UserRole::Customer), None), false).resume(Ok(())) {
        RegisterStep::SanitizeName(next, request) => {
            assert_eq!(request.text.as_deref(), Some("New  User"));
            assert_eq!(request.limit, 120);
            next
        }
        other => panic!("{other:?}"),
    }
}

fn create_step() -> RegisterCreate {
    match name_step().resume(Some("New User".into())) {
        RegisterStep::CreateUser(next, user) => {
            assert_eq!(user.email, "new.user@example.com");
            assert_eq!(user.password, " Secret 1");
            assert_eq!(metadata_str(&user.user_metadata, "full_name"), Some("New User"));
            assert_eq!(metadata_str(&user.user_metadata, "name"), Some("New User"));
            assert!(user.user_metadata.get("profile_picture").unwrap().is_null());
            assert_eq!(metadata_str(&user.app_metadata, "role"), Some("customer"));
            assert_eq!(metadata_str(&user.app_metadata, "subscription_tier"), Some("FREE"));
            next
        }
        other => panic!("{other:?}"),
    }
}

fn update_step() -> RegisterUpdate {
    let created = record("id-1", texts(&[("role", "admin"), ("legacy", "kept")]), Value::Null);
    match create_step().resume(Ok(created)) {
        RegisterStep::UpdateUser(next, patch) => {
            assert_eq!(patch.id, "id-1");
            let app_metadata = patch.body.get("app_metadata").unwrap();
            assert_eq!(metadata_str(app_metadata, "role"), Some("customer"));
            assert_eq!(metadata_str(app_metadata, "legacy"), Some("kept"));
            let user_metadata = patch.body.get("user_metadata").unwrap();
            assert_eq!(metadata_str(user_metadata, "full_name"), Some("New User"));
            assert_eq!(metadata_str(user_metadata, "auth_provider"), Some("email"));
            assert!(user_metadata.get("profile_picture").is_none());
            next
        }
        other => panic!("{other:?}"),
    }
}

fn login_step() -> RegisterLogin {
    let updated = record("id-1", texts(&[("role", "customer")]), texts(&[("name", "New User")]));
    match update_step().resume(Ok(updated)) {
        RegisterStep::LogIn(next, credentials) => {
            assert_eq!(credentials.email, "new.user@example.com");
            assert_eq!(credentials.password, " Secret 1");
            next
        }
        other => panic!("{other:?}"),
    }
}

#[test]
fn a_registration_ends_with_a_session() {
    let session = AuthSession {
        user: record("other", Value::Null, Value::Null),
        cookies: vec!["a=1".into(), "b=2".into()],
    };
    match login_step().resume(Ok(session)) {
        RegisterStep::Done(Ok(response)) => {
            assert_eq!(response.status, 201);
            let cookies: Vec<_> =
                response.headers.get_all("set-cookie").iter().map(|v| v.as_bytes()).collect();
            assert_eq!(cookies, vec![b"a=1", b"b=2"]);
            let user = response.body.get("user").unwrap();
            assert_eq!(metadata_str(user, "id"), Some("id-1"));
            assert_eq!(metadata_str(user, "name"), Some("New User"));
        }
        other => panic!("{other:?}"),
    }
}

#[test]
fn a_registration_whose_log_in_fails_keeps_its_user() {
    match login_step().resume(Err(anyhow::Error::msg("Invalid login credentials"))) {
        RegisterStep::Done(Err(AppError::Unauthorized(m))) => assert_eq!(m, "Invalid credentials"),
        other => panic!("{other:?}"),
    }
}

#[test]
fn a_registration_without_metadata_is_taken_back() {
    for deleted in [Ok(()), Err(anyhow::Error::msg("already gone"))] {
        let next = match update_step().resume(Err(anyhow::Error::msg("not configured"))) {
            RegisterStep::DeleteUser(next, id) => {
                assert_eq!(id, "id-1");
                next
            }
            other => panic!("{other:?}"),
        };
        match next.resume(deleted) {
            RegisterStep::Done(Err(AppError::Internal(m))) => {
                assert_eq!(m, "Supabase is not configured")
            }
            other => panic!("{other:?}"),
        }
    }
}

#[test]
fn an_email_address_registers_once() {
    match create_step().resume(Err(anyhow::Error::msg("A user with this email EXISTS"))) {
        RegisterStep::Done(Err(AppError::Conflict(m))) => assert_eq!(m, "Email already registered"),
        other => panic!("{other:?}"),
    }
}

#[test]
fn bad_fields_end_a_registration_and_a_log_in() {
    let printed = field_errors().to_string();
    assert!(!printed.is_empty());
    match register(payload(None, None), Err(field_errors()), true) {
        RegisterStep::Done(Err(AppError::BadRequest(m))) => assert_eq!(m, printed),
        other => panic!("{other:?}"),
    }
    let payload = UserLogin { email: "x".into(), password: "y".into() };
    match login(payload, Err(field_errors())) {
        SignInStep::Done(Err(AppError::BadRequest(m))) => assert_eq!(m, printed),
        other => panic!("{other:?}"),
    }
}

#[test]
fn a_weak_password_ends_a_registration() {
    let next = password_step(payload(None, None), true);
    match next.resume(Err(AppError::BadRequest("too short".into()))) {
        RegisterStep::Done(Err(AppError::BadRequest(m))) => assert_eq!(m, "too short"),
        other => panic!("{other:?}"),
    }
}

#[test]
fn a_token_is_asked_for_where_it_is_verified() {
    for token in [None, Some(""), Some(" \t\u{2028}"), Some(" recaptcha-not-configured ")] {
        match password_step(payload(None, token), true).resume(Ok(())) {
            RegisterStep::Done(Err(AppError::BadRequest(m))) => {
                assert_eq!(m, "reCAPTCHA token required")
            }
            other => panic!("{other:?}"),
        }
    }
    assert_eq!(captcha_step("\u{3000}to ken\u{85}").1, "to ken");
    assert_eq!(captcha_step("Recaptcha-not-configured").1, "Recaptcha-not-configured");
}

#[test]
fn a_refused_token_says_why() {
    let error = anyhow::Error::msg("inner").context("score too low");
    match captcha_step("token").0.resume(Err(error)) {
        RegisterStep::Done(Err(AppError::BadRequest(m))) => assert_eq!(m, "score too low"),
        other => panic!("{other:?}"),
    }
    assert!(matches!(
        captcha_step("token").0.resume(Ok(())),
        RegisterStep::SanitizeName(next, _) if next.role == "customer"
    ));
}

#[test]
fn owners_and_administrators_do_not_register() {
    for role in [UserRole::BusinessOwner, UserRole::Admin] {
        match password_step(payload(Some(role), None), false).resume(Ok(())) {
            RegisterStep::Done(Err(AppError::Forbidden(m))) => {
                assert_eq!(m, "This role cannot be self-registered")
            }
            other => panic!("{other:?}"),
        }
    }
}

#[test]
fn email_addresses_are_kept_in_lower_case_without_space_around() {
    assert_eq!(normalize_email("\u{2003}A B@X.Y \r\n"), "a b@x.y");
    assert_eq!(normalize_email("\u{200b}A"), "\u{200b}a");
    assert_eq!(normalize_email("\u{c4}\u{39f}\u{3a3}"), "\u{e4}\u{3bf}\u{3c2}");
    assert_eq!(normalize_email("\u{130}"), "i\u{307}");
    assert_eq!(normalize_email(" \t "), "");
}

fn complete_user() -> AuthUserRecord {
    record(
        "id-2",
        texts(&[("role", "admin"), ("subscription_tier", "PRO")]),
        texts(&[("auth_provider", "email")]),
    )
}

#[test]
fn a_log_in_of_a_complete_user_changes_nothing() {
    let payload = UserLogin { email: " ME@x.org".into(), password: "P".into() };
    let next = match login(payload, Ok(())) {
        SignInStep::LogIn(next, credentials) => {
            assert_eq!(credentials.email, "me@x.org");
            assert_eq!(credentials.password, "P");
            next
        }
        other => panic!("{other:?}"),
    };
    let session = AuthSession { user: complete_user(), cookies: vec!["s=1".into()] };
    match next.resume(Ok(session)) {
        SignInStep::Done(Ok(response)) => {
            assert_eq!(response.status, 200);
            assert_eq!(response.headers.get("set-cookie").unwrap().as_bytes(), b"s=1");
            let user = response.body.get("user").unwrap();
            assert_eq!(metadata_str(user, "role"), Some("admin"));
            assert_eq!(metadata_str(user, "subscription_tier"), Some("PRO"));
        }
        other => panic!("{other:?}"),
    }
}

#[test]
fn a_log_in_through_google_completes_its_user() {
    let next = match google_auth(GoogleAuthRequest { credential: " cred \n".into() }) {
        SignInStep::LogInWithToken(next, token) => {
            assert_eq!(token.provider, "google");
            assert_eq!(token.credential, "cred");
            next
        }
        other => panic!("{other:?}"),
    };
    let user = record("id-3", Value::Null, texts(&[("auth_provider", "email"), ("name", "N")]));
    let session = AuthSession { user, cookies: vec!["s=1".into()] };
    let next = match next.resume(Ok(session)) {
        SignInStep::UpdateUser(next, patch) => {
            assert_eq!(patch.id, "id-3");
            let app_metadata = patch.body.get("app_metadata").unwrap();
            assert_eq!(metadata_str(app_metadata, "role"), Some("customer"));
            assert_eq!(metadata_str(app_metadata, "subscription_tier"), Some("FREE"));
            let user_metadata = patch.body.get("user_metadata").unwrap();
            assert_eq!(metadata_str(user_metadata, "auth_provider"), Some("google"));
            assert_eq!(metadata_str(user_metadata, "name"), Some("N"));
            next
        }
        other => panic!("{other:?}"),
    };
    match next.resume(Ok(complete_user())) {
        SignInStep::Done(Ok(response)) => {
            assert_eq!(response.status, 200);
            assert_eq!(response.headers.len(), 1);
            let user = response.body.get("user").unwrap();
            assert_eq!(metadata_str(user, "id"), Some("id-2"));
        }
        other => panic!("{other:?}"),
    }
}

#[test]
fn a_log_in_fails_as_the_service_says() {
    let next = match google_auth(GoogleAuthRequest { credential: "c".into() }) {
        SignInStep::LogInWithToken(next, _) => next,
        other => panic!("{other:?}"),
    };
    assert!(matches!(
        next.resume(Err(anyhow::Error::msg("timeout"))),
        SignInStep::Done(Err(AppError::Internal(m))) if m == "Authentication service unavailable"
    ));
    match google_auth(GoogleAuthRequest { credential: " \u{205f} ".into() }) {
        SignInStep::Done(Err(AppError::BadRequest(m))) => {
            assert_eq!(m, "Google credential required")
        }
        other => panic!("{other:?}"),
    }
}

#[test]
fn defaults_are_brought_once() {
    let user = record("id-4", texts(&[("role", "business_owner")]), Value::Bool(true));
    let patch = match ensure_auth_defaults(user, Some("customer"), Some("email")) {
        Defaults::Update(patch) => patch,
        other => panic!("{other:?}"),
    };
    let app_metadata = patch.body.get("app_metadata").unwrap().clone();
    let user_metadata = patch.body.get("user_metadata").unwrap().clone();
    assert_eq!(metadata_str(&app_metadata, "role"), Some("business_owner"));
    assert_eq!(metadata_str(&app_metadata, "subscription_tier"), Some("FREE"));
    assert_eq!(metadata_str(&user_metadata, "auth_provider"), Some("email"));

    let user = record("id-4", app_metadata, user_metadata);
    assert!(matches!(
        ensure_auth_defaults(user, Some("customer"), Some("email")),
        Defaults::Unchanged(user) if user.id == "id-4"
    ));
}

#[test]
fn defaults_without_a_provider_leave_user_metadata_alone() {
    let user = record("id-5", texts(&[("role", "x"), ("subscription_tier", "y")]), Value::Null);
    assert!(matches!(ensure_auth_defaults(user, None, None), Defaults::Unchanged(_)));
    let user = record("id-5", Value::Null, Value::Null);
    match ensure_auth_defaults(user, None, None) {
        Defaults::Update(patch) => {
            assert!(patch.body.get("user_metadata").unwrap().is_null());
            let app_metadata = patch.body.get("app_metadata").unwrap();
            assert_eq!(metadata_str(app_metadata, "role"), Some("customer"));
        }
        other => panic!("{other:?}"),
    }
}

#[test]
fn a_log_out_ends_the_session_in_any_case() {
    let cookies = || vec!["a=; Max-Age=0".to_string()];
    match logout(None, cookies()) {
        LogoutStep::Done(response) => {
            assert_eq!(response.status, 200);
            assert_eq!(metadata_str(&response.body, "message"), Some("Logged out successfully"));
        }
        other => panic!("{other:?}"),
    }
    for revoked in [Ok(()), Err(anyhow::Error::msg("no"))] {
        let next = match logout(Some("token".into()), cookies()) {
            LogoutStep::Revoke(next, token) => {
                assert_eq!(token, "token");
                next
            }
            other => panic!("{other:?}"),
        };
        let response = next.resume(revoked);
        assert_eq!(response.headers.get("set-cookie").unwrap().as_bytes(), b"a=; Max-Age=0");
        assert_eq!(metadata_str(&response.body, "message"), Some("Logged out successfully"));
    }
}

#[test]
fn a_session_asks_about_its_user() {
    let auth_user = AuthUser {
        id: "id-6".into(),
        email: "e".into(),
        name: "n".into(),
        role: "customer".into(),
    };
    assert_eq!(me(&auth_user), "id-6");
    let body = me_found(Ok(complete_user())).unwrap();
    assert_eq!(metadata_str(&body, "id"), Some("id-2"));
    assert!(body.get("user").is_none());
    assert!(matches!(
        me_found(Err(anyhow::Error::msg("invalid login"))),
        Err(AppError::Unauthorized(_))
    ));
}
