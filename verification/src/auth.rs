//! What registration, log in and log out are made of: roles, metadata, the user as its session
//! sees it, failures and cookies.

use crate::errors::{prints, AppError, Failure};
use crate::headers::{cookie_headers, header_lines, set_cookie_headers};
use crate::metadata::{merge_metadata, merged, metadata_str};
use crate::models::{AuthSession, AuthUserRecord, UserPatch, UserRole, UserView};
use crate::profile::{
    add_preferences, created_at, email, email_of, full_name, full_name_of, name_to_show, or_else,
    preferences_of, shown_name, text_or, with_preferences,
};
use crate::text::{ascii_lowered, contains, occurs, to_ascii_lowercase};
use crate::value::{str_view, text_or_null, Json, Object, Value};
use axum::http::{HeaderMap, HeaderValue};
use vstd::prelude::*;

verus! {

/// The role that a registration gets: customer, and none other can be had by registering.
pub open spec fn role_for(role: Option<UserRole>) -> Result<Seq<char>, Failure> {
    match role {
        None | Some(UserRole::Customer) => Ok("customer"@),
        Some(UserRole::BusinessOwner) | Some(UserRole::Admin) => Err(
            Failure::Forbidden("This role cannot be self-registered"@),
        ),
    }
}

/// The role that a registration gets. Business owners get theirs through the verified claim of
/// a business.
pub fn registration_role(role: Option<&UserRole>) -> (result: Result<&'static str, AppError>)
    ensures
        match result {
            Ok(name) => role_for(role_view(role)) == Ok::<Seq<char>, Failure>(name@),
            Err(error) => role_for(role_view(role)) == Err::<Seq<char>, Failure>(
                error@,
            ),
        },
{
    match role {
        None | Some(UserRole::Customer) => Ok("customer"),
        Some(UserRole::BusinessOwner) | Some(UserRole::Admin) => Err(
            AppError::Forbidden("This role cannot be self-registered".to_owned()),
        ),
    }
}

/// The role that an optional reference points at.
pub open spec fn role_view(role: Option<&UserRole>) -> Option<UserRole> {
    match role {
        Some(role) => Some(*role),
        None => None,
    }
}

/// The metadata that a registration sets and the user cannot change.
pub open spec fn registered_app(role: Seq<char>) -> Json {
    Json::Object(
        map!["role"@ => Json::String(role), "subscription_tier"@ => Json::String("FREE"@)],
    )
}

/// The metadata that a registration sets and the user cannot change.
pub fn registration_app_metadata(role: &str) -> (metadata: Value)
    ensures
        metadata@ == registered_app(role@),
{
    Value::Object(
        Object::new().insert("role", Value::text(role)).insert(
            "subscription_tier",
            Value::text("FREE"),
        ),
    )
}

/// The metadata that a registration sets and the user can change later.
pub open spec fn registered_user(full_name: Option<Seq<char>>) -> Json {
    Json::Object(
        map![
            "full_name"@ => text_or_null(full_name),
            "name"@ => text_or_null(full_name),
            "profile_picture"@ => Json::Null,
            "auth_provider"@ => Json::String("email"@)
        ],
    )
}

/// The metadata that a registration sets and the user can change later.
pub fn registration_user_metadata(full_name: Option<&str>) -> (metadata: Value)
    ensures
        metadata@ == registered_user(str_view(full_name)),
{
    Value::Object(
        Object::new().insert("full_name", Value::text_or_null(full_name)).insert(
            "name",
            Value::text_or_null(full_name),
        ).insert("profile_picture", Value::Null).insert("auth_provider", Value::text("email")),
    )
}

/// The app and the user metadata of a user with those of its registration written over them.
pub fn registration_metadata(
    user: &AuthUserRecord,
    role: &str,
    full_name: Option<&str>,
) -> (metadata: (Value, Value))
    ensures
        metadata.0@ == merged(user@.app_metadata, registered_app(role@)),
        metadata.1@ == merged(user@.user_metadata, registered_user(str_view(full_name))),
{
    let mut app_metadata = user.app_metadata.clone();
    let mut user_metadata = user.user_metadata.clone();
    merge_metadata(&mut app_metadata, registration_app_metadata(role));
    merge_metadata(&mut user_metadata, registration_user_metadata(full_name));
    (app_metadata, user_metadata)
}

/// The members that write both metadata of a user.
pub open spec fn both_metadata(app_metadata: Json, user_metadata: Json) -> Json {
    Json::Object(map!["app_metadata"@ => app_metadata, "user_metadata"@ => user_metadata])
}

pub(crate) fn metadata_patch(
    id: &str,
    app_metadata: Value,
    user_metadata: Value,
) -> (patch: UserPatch)
    ensures
        patch.id@ == id@,
        patch.body@ == both_metadata(app_metadata@, user_metadata@),
{
    UserPatch {
        id: id.to_owned(),
        body: Value::Object(
            Object::new().insert("app_metadata", app_metadata).insert(
                "user_metadata",
                user_metadata,
            ),
        ),
    }
}

/// The change that puts the metadata of its registration into a user, so that the token of the
/// first session carries the role already.
pub fn update_registration_metadata(
    user: &AuthUserRecord,
    role: &str,
    full_name: Option<&str>,
) -> (patch: UserPatch)
    ensures
        patch.id@ == user@.id,
        patch.body@ == both_metadata(
            merged(user@.app_metadata, registered_app(role@)),
            merged(user@.user_metadata, registered_user(str_view(full_name))),
        ),
{
    let (app_metadata, user_metadata) = registration_metadata(user, role, full_name);
    metadata_patch(user.id.as_str(), app_metadata, user_metadata)
}

/// A user as a session of its own sees it.
pub open spec fn public_user(user: UserView) -> Json {
    Json::Object(
        with_preferences(
            map![
                "id"@ => Json::String(user.id),
                "_id"@ => Json::String(user.id),
                "email"@ => Json::String(email_of(user)),
                "name"@ => Json::String(shown_name(full_name_of(user), email_of(user))),
                "full_name"@ => text_or_null(full_name_of(user)),
                "role"@ => Json::String(text_or(user.app_metadata.text_at("role"@), "customer"@)),
                "profile_picture"@ => text_or_null(user.user_metadata.text_at("profile_picture"@)),
                "subscription_tier"@ => Json::String(
                    text_or(user.app_metadata.text_at("subscription_tier"@), "FREE"@)),
                "created_at"@ => text_or_null(user.created_at),
                "auth_provider"@ => text_or_null(user.user_metadata.text_at("auth_provider"@))
            ],
            preferences_of(user),
        ),
    )
}

/// A user as a session of its own sees it.
pub fn public_user_json(user: &AuthUserRecord) -> (json: Value)
    ensures
        json@ == public_user(user@),
{
    let given = full_name(user);
    let address = email(user);
    let name = name_to_show(given, address);
    let role = or_else(metadata_str(&user.app_metadata, "role"), "customer");
    let tier = or_else(metadata_str(&user.app_metadata, "subscription_tier"), "FREE");
    let picture = metadata_str(&user.user_metadata, "profile_picture");
    let provider = metadata_str(&user.user_metadata, "auth_provider");
    let preferences = user.user_metadata.get_or_null("preferences");
    let object = Object::new().insert("id", Value::text(user.id.as_str())).insert(
        "_id",
        Value::text(user.id.as_str()),
    ).insert("email", Value::text(address)).insert("name", Value::text(name)).insert(
        "full_name",
        Value::text_or_null(given),
    ).insert("role", Value::text(role)).insert(
        "profile_picture",
        Value::text_or_null(picture),
    ).insert("subscription_tier", Value::text(tier)).insert("created_at", created_at(user)).insert(
        "auth_provider",
        Value::text_or_null(provider),
    );
    Value::Object(add_preferences(object, preferences))
}

/// The body that answers a registration or a log in.
pub open spec fn auth_response(user: UserView) -> Json {
    Json::Object(map!["user"@ => public_user(user)])
}

/// The body that answers a registration or a log in.
pub fn auth_response_json(user: &AuthUserRecord) -> (json: Value)
    ensures
        json@ == auth_response(user@),
{
    Value::Object(Object::new().insert("user", public_user_json(user)))
}

/// What a message of the authentication service means.
pub open spec fn auth_failure(message: Seq<char>) -> Failure {
    let lowered = ascii_lowered(message);
    if occurs(lowered, "already"@) || occurs(lowered, "registered"@) || occurs(
        lowered,
        "exists"@,
    ) {
        Failure::Conflict("Email already registered"@)
    } else if occurs(lowered, "not configured"@) {
        Failure::Internal("Supabase is not configured"@)
    } else if occurs(lowered, "invalid login"@) || occurs(lowered, "invalid credentials"@) {
        Failure::Unauthorized("Invalid credentials"@)
    } else {
        Failure::Internal("Authentication service unavailable"@)
    }
}

/// The failure that a message of the authentication service means.
pub fn supabase_auth_failure(message: &str) -> (failure: AppError)
    ensures
        failure@ == auth_failure(message@),
{
    let lowered = to_ascii_lowercase(message);
    let lowered = lowered.as_str();
    if contains(lowered, "already") || contains(lowered, "registered") || contains(
        lowered,
        "exists",
    ) {
        AppError::Conflict("Email already registered".to_owned())
    } else if contains(lowered, "not configured") {
        AppError::Internal("Supabase is not configured".to_owned())
    } else if contains(lowered, "invalid login") || contains(lowered, "invalid credentials") {
        AppError::Unauthorized("Invalid credentials".to_owned())
    } else {
        AppError::Internal("Authentication service unavailable".to_owned())
    }
}

/// `failure` is what something that `error` may print means.
pub open spec fn auth_failure_of(error: anyhow::Error, failure: Failure) -> bool {
    exists|message: Seq<char>|
        #[trigger] prints(error, message) && failure == auth_failure(message)
}

/// The failure that an error of the authentication service means, by what it prints.
pub fn map_supabase_auth_error(error: anyhow::Error) -> (failure: AppError)
    ensures
        auth_failure_of(error, failure@),
{
    let message = error.to_string();
    assert(prints(error, message@));
    supabase_auth_failure(message.as_str())
}

/// The headers that set the cookies of a session.
pub fn session_headers(session: &AuthSession) -> (headers: HeaderMap<HeaderValue>)
    ensures
        header_lines(headers) == cookie_headers(session.cookies@),
{
    set_cookie_headers(&session.cookies)
}

/// The headers that set the cookies by which a session ends.
pub fn clear_session_headers(cookies: &Vec<String>) -> (headers: HeaderMap<HeaderValue>)
    ensures
        header_lines(headers) == cookie_headers(cookies@),
{
    set_cookie_headers(cookies)
}

} // verus!
