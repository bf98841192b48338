//! What holds of metadata and of users that are shown, member by member.

use crate::auth::{
    auth_failure_of, auth_response, auth_response_json, map_supabase_auth_error, public_user,
    public_user_json, registration_app_metadata, registration_metadata, registration_role,
    registration_user_metadata, supabase_auth_failure, update_registration_metadata,
};
use crate::errors::{prints, AppError, Failure};
use crate::laws::{is_preference_key, is_public_key, is_session_key};
use crate::metadata::{
    merge_metadata, merged, metadata_str, set_metadata, text_or_empty, value_str, with_member,
};
use crate::models::{AuthUser, AuthUserRecord, UserPatch, UserRole};
use crate::names::lemma_names;
use crate::profile::{email_of, full_name_of, preferences_of, shown_name, with_preferences};
use crate::text::{ascii_lowered, occurs};
use crate::text_laws::{is_blank, law_trim_takes_white_space};
use crate::users::{
    get_me, get_me_found, get_user_profile, shown_role, shown_user, user_json, user_shown,
    ProfileId, ProfileLookup, ProfileStep,
};
use crate::value::{str_view, string_view, Json, Value};
use vstd::prelude::*;

verus! {

/// A member that is text is read, and any other one is not; where a text is owed, the empty one
/// stands for a missing one.
pub proof fn law_read_text(
    value: Value,
    key: &str,
    text: Option<&str>,
    owed: &str,
)
    requires
        call_ensures(metadata_str, (&value, key), text),
        call_ensures(value_str, (&value, key), owed),
    ensures
        value@.get(key@) matches Some(Json::String(there)) ==> {
            &&& text matches Some(text)
            &&& text@ == there
            &&& owed@ == there
            &&& text_or_empty(value@, key@) == there
        },
        !(value@.get(key@) matches Some(Json::String(_))) ==> {
            &&& text is None
            &&& owed@.len() == 0
            &&& text_or_empty(value@, key@).len() == 0
        },
{
}

/// After a merge an object has under each key what the patch has there, unless that is missing or
/// null, and then what the target had.
pub proof fn law_merged_member(target: Json, patch: Json, key: Seq<char>)
    ensures
        merged(target, patch) is Object,
        (patch.get(key) matches Some(member) && !(member is Null)) ==> merged(target, patch).get(
            key,
        ) == patch.get(key),
        patch.get(key) is None || patch.get(key) == Some(Json::Null) ==> merged(target, patch).get(
            key,
        ) == target.get(key),
{
}

/// To merge a patch in writes each member of it that is not null, and leaves every other member
/// that was there.
pub proof fn law_merge_metadata(key: Seq<char>)
    ensures
        forall|target: &mut Value, patch: Value| #[trigger]
            call_ensures(merge_metadata, (target, patch), ()) ==> {
                let after = final(target)@;
                &&& after is Object
                &&& (patch@.get(key) matches Some(member) && !(member is Null)) ==> after.get(key)
                    == patch@.get(key)
                &&& patch@.get(key) is None || patch@.get(key) == Some(Json::Null) ==> after.get(
                    key,
                ) == target@.get(key)
            },
{
}

/// To set a member writes that one, whatever it is, and leaves every other member that was there.
pub proof fn law_set_metadata(other: Seq<char>)
    ensures
        forall|metadata: &mut Value, key: &str, value: Value| #[trigger]
            call_ensures(set_metadata, (metadata, key, value), ()) ==> {
                let after = final(metadata)@;
                &&& after is Object
                &&& after.get(key@) == Some(value@)
                &&& other != key@ ==> after.get(other) == metadata@.get(other)
            },
{
}

/// What is put into metadata makes an object of it that differs at one key alone.
pub proof fn law_put_member(metadata: Json, key: Seq<char>, value: Json, other: Seq<char>)
    ensures
        with_member(metadata, key, value) is Object,
        with_member(metadata, key, value).get(key) == Some(value),
        other != key ==> with_member(metadata, key, value).get(other) == metadata.get(other),
{
}

/// Customers register, with or without saying so; owners and administrators do not.
pub proof fn law_registration_role(role: Option<&UserRole>, result: Result<&'static str, AppError>)
    requires
        call_ensures(registration_role, (role,), result),
    ensures
        role is None || *role->0 == UserRole::Customer ==> {
            &&& result matches Ok(name)
            &&& name@ == "customer"@
        },
        (role matches Some(role) && *role != UserRole::Customer) ==> {
            &&& result matches Err(error)
            &&& error@ == Failure::Forbidden("This role cannot be self-registered"@)
        },
{
}

/// A new user is given the role and the free tier, and nothing else, where it cannot change it.
pub proof fn law_registration_app_metadata(role: &str, metadata: Value, key: Seq<char>)
    requires
        call_ensures(registration_app_metadata, (role,), metadata),
    ensures
        metadata@.get("role"@) == Some(Json::String(role@)),
        metadata@.get("subscription_tier"@) == Some(Json::String("FREE"@)),
        key != "role"@ && key != "subscription_tier"@ ==> metadata@.get(key) is None,
{
    lemma_names();
}

/// A new user is given its name twice over, no picture, and the way it registered, and nothing
/// else, where it can change it.
pub proof fn law_registration_user_metadata(
    full_name: Option<&str>,
    metadata: Value,
    key: Seq<char>,
)
    requires
        call_ensures(registration_user_metadata, (full_name,), metadata),
    ensures
        full_name matches Some(name) ==> {
            &&& metadata@.get("full_name"@) == Some(Json::String(name@))
            &&& metadata@.get("name"@) == Some(Json::String(name@))
        },
        full_name is None ==> {
            &&& metadata@.get("full_name"@) == Some(Json::Null)
            &&& metadata@.get("name"@) == Some(Json::Null)
        },
        metadata@.get("profile_picture"@) == Some(Json::Null),
        metadata@.get("auth_provider"@) == Some(Json::String("email"@)),
        key != "full_name"@ && key != "name"@ && key != "profile_picture"@ && key
            != "auth_provider"@ ==> metadata@.get(key) is None,
{
    lemma_names();
}

/// The app metadata after a registration: the role and the free tier, and else what was there.
pub open spec fn is_registered_app(after: Json, before: Json, role: Seq<char>) -> bool {
    &&& after is Object
    &&& after.get("role"@) == Some(Json::String(role))
    &&& after.get("subscription_tier"@) == Some(Json::String("FREE"@))
    &&& forall|key: Seq<char>|
        key != "role"@ && key != "subscription_tier"@ ==> #[trigger] after.get(key) == before.get(
            key,
        )
}

/// The user metadata after a registration: the way it was done, the name where one is given, and
/// else what was there.
pub open spec fn is_registered_user(
    after: Json,
    before: Json,
    full_name: Option<Seq<char>>,
) -> bool {
    &&& after is Object
    &&& after.get("auth_provider"@) == Some(Json::String("email"@))
    &&& full_name matches Some(name) ==> after.get("full_name"@) == Some(Json::String(name))
        && after.get("name"@) == Some(Json::String(name))
    &&& full_name is None ==> after.get("full_name"@) == before.get("full_name"@) && after.get(
        "name"@,
    ) == before.get("name"@)
    &&& forall|key: Seq<char>|
        key != "auth_provider"@ && key != "full_name"@ && key != "name"@ ==> #[trigger] after.get(
            key,
        ) == before.get(key)
}

/// The body of a change that writes both metadata of a user, and nothing else.
pub open spec fn writes_both(body: Json, app_metadata: Json, user_metadata: Json) -> bool {
    &&& body.get("app_metadata"@) == Some(app_metadata)
    &&& body.get("user_metadata"@) == Some(user_metadata)
    &&& forall|key: Seq<char>|
        key != "app_metadata"@ && key != "user_metadata"@ ==> #[trigger] body.get(key) is None
}

/// The metadata of a registration are written over those of the user without losing any other
/// member.
pub proof fn law_registration_over_user(
    user: AuthUserRecord,
    role: &str,
    full_name: Option<&str>,
    metadata: (Value, Value),
)
    requires
        call_ensures(registration_metadata, (&user, role, full_name), metadata),
    ensures
        is_registered_app(metadata.0@, user.app_metadata@, role@),
        is_registered_user(metadata.1@, user.user_metadata@, str_view(full_name)),
{
    lemma_names();
}

/// The change that a registration makes writes those metadata, into that user.
pub proof fn law_registration_change(
    user: AuthUserRecord,
    role: &str,
    full_name: Option<&str>,
    patch: UserPatch,
)
    requires
        call_ensures(update_registration_metadata, (&user, role, full_name), patch),
    ensures
        patch.id@ == user.id@,
        exists|app: Json, metadata: Json|
            {
                &&& #[trigger] writes_both(patch.body@, app, metadata)
                &&& is_registered_app(app, user.app_metadata@, role@)
                &&& is_registered_user(metadata, user.user_metadata@, str_view(full_name))
            },
{
    lemma_names();
    let app = patch.body@.get("app_metadata"@)->0;
    let metadata = patch.body@.get("user_metadata"@)->0;
    assert(writes_both(patch.body@, app, metadata));
}

/// What a message of the authentication service says, whatever its case.
pub open spec fn says(message: Seq<char>, part: Seq<char>) -> bool {
    occurs(ascii_lowered(message), part)
}

/// A failure is the one that a message of the authentication service stands for.
pub open spec fn is_read_as(message: Seq<char>, failure: Failure) -> bool {
    let taken = says(message, "already"@) || says(message, "registered"@) || says(
        message,
        "exists"@,
    );
    let unset = says(message, "not configured"@);
    let wrong = says(message, "invalid login"@) || says(message, "invalid credentials"@);
    &&& taken ==> failure == Failure::Conflict("Email already registered"@)
    &&& !taken && unset ==> failure == Failure::Internal("Supabase is not configured"@)
    &&& !taken && !unset && wrong ==> failure == Failure::Unauthorized("Invalid credentials"@)
    &&& !taken && !unset && !wrong ==> failure == Failure::Internal(
        "Authentication service unavailable"@,
    )
}

/// A failure is the one that something that an error prints stands for.
pub open spec fn is_failure_of(error: anyhow::Error, failure: Failure) -> bool {
    exists|message: Seq<char>| #[trigger] prints(error, message) && is_read_as(message, failure)
}

/// A message of the authentication service is read by the words in it: first that an email address
/// is taken, then that the service is not set up, then that the credentials are wrong.
pub proof fn law_auth_message(message: &str, failure: AppError)
    requires
        call_ensures(supabase_auth_failure, (message,), failure),
    ensures
        is_read_as(message@, failure@),
{
}

/// An error of the authentication service is read by what it prints.
pub proof fn law_auth_error(error: anyhow::Error, failure: AppError)
    requires
        call_ensures(map_supabase_auth_error, (error,), failure),
    ensures
        is_failure_of(error, failure@),
{
    lemma_failure_of(error, failure@);
}

/// The failure of an error is read from what it prints.
pub(crate) proof fn lemma_failure_of(error: anyhow::Error, failure: Failure)
    requires
        auth_failure_of(error, failure),
    ensures
        is_failure_of(error, failure),
{
    let message = choose|message: Seq<char>|
        #[trigger] prints(error, message) && failure == crate::auth::auth_failure(message);
    assert(is_read_as(message, failure));
}

/// `shown` is the name of a user: the full name if that is text, else the short one, and what
/// stands in for it where that is missing or blank.
pub open spec fn is_name(metadata: Json, instead: Seq<char>, shown: Seq<char>) -> bool {
    let full = metadata.text_at("full_name"@);
    let short = metadata.text_at("name"@);
    &&& (full matches Some(name) && !is_blank(name)) ==> shown == full->0
    &&& (full matches Some(name) && is_blank(name)) ==> shown == instead
    &&& full is None && (short matches Some(name) && !is_blank(name)) ==> shown == short->0
    &&& full is None && (short matches Some(name) && is_blank(name)) ==> shown == instead
    &&& full is None && short is None ==> shown == instead
}

/// An object has under a key the text that there is, and null where there is none.
pub open spec fn has_text_or_null(json: Json, key: Seq<char>, text: Option<Seq<char>>) -> bool {
    &&& text matches Some(text) ==> json.get(key) == Some(Json::String(text))
    &&& text is None ==> json.get(key) == Some(Json::Null)
}

/// An object has under a key the text that there is, and a default where there is none.
pub open spec fn has_text_or(
    json: Json,
    key: Seq<char>,
    text: Option<Seq<char>>,
    instead: Seq<char>,
) -> bool {
    &&& text matches Some(text) ==> json.get(key) == Some(Json::String(text))
    &&& text is None ==> json.get(key) == Some(Json::String(instead))
}

/// An object has under a key what another value has there, and null where that has nothing.
pub open spec fn has_copy(json: Json, from: Json, key: Seq<char>) -> bool {
    &&& from.get(key) matches Some(member) ==> json.get(key) == Some(member)
    &&& from.get(key) is None ==> json.get(key) == Some(Json::Null)
}

/// An object shows the preferences in the metadata of a user: all of them, and six by themselves.
pub open spec fn shows_preferences(json: Json, metadata: Json) -> bool {
    let preferences = metadata.get_or_null("preferences"@);
    &&& has_copy(json, metadata, "preferences"@)
    &&& has_copy(json, preferences, "preferred_categories"@)
    &&& has_copy(json, preferences, "preferred_vibes"@)
    &&& has_copy(json, preferences, "prefer_independent"@)
    &&& has_copy(json, preferences, "price_pref"@)
    &&& has_copy(json, preferences, "discovery_mode"@)
    &&& has_copy(json, preferences, "preferences_completed"@)
}

/// The email address of a user, empty where it has none.
pub open spec fn is_email(user: AuthUserRecord, email: Seq<char>) -> bool {
    &&& user.email matches Some(address) ==> email == address@
    &&& user.email is None ==> email.len() == 0
}

/// An object shows a user to a session of its own.
pub open spec fn shows_to_session(json: Json, user: AuthUserRecord) -> bool {
    let metadata = user.user_metadata@;
    let app = user.app_metadata@;
    &&& json.get("id"@) == Some(Json::String(user.id@))
    &&& json.get("_id"@) == Some(Json::String(user.id@))
    &&& json.text_at("email"@) matches Some(email) && is_email(user, email) && (json.text_at(
        "name"@,
    ) matches Some(name) && is_name(metadata, email, name))
    &&& has_text_or_null(
        json,
        "full_name"@,
        if metadata.text_at("full_name"@) is Some {
            metadata.text_at("full_name"@)
        } else {
            metadata.text_at("name"@)
        },
    )
    &&& has_text_or(json, "role"@, app.text_at("role"@), "customer"@)
    &&& has_text_or(json, "subscription_tier"@, app.text_at("subscription_tier"@), "FREE"@)
    &&& has_text_or_null(json, "profile_picture"@, metadata.text_at("profile_picture"@))
    &&& has_text_or_null(json, "auth_provider"@, metadata.text_at("auth_provider"@))
    &&& has_text_or_null(json, "created_at"@, string_view(user.created_at))
    &&& shows_preferences(json, metadata)
    &&& forall|key: Seq<char>| !is_session_key(key) ==> #[trigger] json.get(key) is None
}

/// Members to which the preferences are added show them, and stay as they are besides.
proof fn lemma_preferences(members: Map<Seq<char>, Json>, metadata: Json)
    ensures
        ({
            let json = Json::Object(
                with_preferences(members, metadata.get_or_null("preferences"@)),
            );
            &&& shows_preferences(json, metadata)
            &&& forall|key: Seq<char>|
                !is_preference_key(key) ==> #[trigger] json.get(key) == Json::Object(members).get(
                    key,
                )
        }),
{
    lemma_names();
}

/// The name that is shown is the name of the user.
proof fn lemma_name(user: AuthUserRecord, instead: Seq<char>)
    ensures
        is_name(user.user_metadata@, instead, shown_name(full_name_of(user@), instead)),
{
    if let Some(name) = full_name_of(user@) {
        law_trim_takes_white_space(name);
    }
}

/// The email address that is shown is the one of the user.
proof fn lemma_email(user: AuthUserRecord)
    ensures
        is_email(user, email_of(user@)),
{
    reveal_strlit("");
}

/// The members of a user, but for its preferences, as its own session sees them.
proof fn lemma_session_members(user: AuthUserRecord)
    ensures
        ({
            let json = public_user(user@);
            let metadata = user.user_metadata@;
            let app = user.app_metadata@;
            let email = email_of(user@);
            &&& json.get("id"@) == Some(Json::String(user.id@))
            &&& json.get("_id"@) == Some(Json::String(user.id@))
            &&& json.get("email"@) == Some(Json::String(email))
            &&& json.get("name"@) == Some(Json::String(shown_name(full_name_of(user@), email)))
            &&& has_text_or_null(json, "full_name"@, full_name_of(user@))
            &&& has_text_or(json, "role"@, app.text_at("role"@), "customer"@)
            &&& has_text_or(json, "subscription_tier"@, app.text_at("subscription_tier"@), "FREE"@)
            &&& has_text_or_null(json, "profile_picture"@, metadata.text_at("profile_picture"@))
            &&& has_text_or_null(json, "auth_provider"@, metadata.text_at("auth_provider"@))
            &&& has_text_or_null(json, "created_at"@, string_view(user.created_at))
        }),
{
    lemma_names();
}

/// A user is shown to its own session with just what it holds.
pub(crate) proof fn lemma_session_user(user: AuthUserRecord)
    ensures
        shows_to_session(public_user(user@), user),
{
    let json = public_user(user@);
    lemma_session_members(user);
    lemma_name(user, email_of(user@));
    lemma_email(user);
    let members = json.members();
    lemma_preferences(members, user.user_metadata@);
    assert(with_preferences(members, preferences_of(user@)) =~= members);
    assert forall|key: Seq<char>| !is_session_key(key) implies #[trigger] json.get(key) is None by {
        assert(!json.members().contains_key(key));
    }
}

/// A user is shown to its own session with each member that it holds, and with no other.
pub proof fn law_session_user(user: AuthUserRecord, json: Value)
    requires
        call_ensures(public_user_json, (&user,), json),
    ensures
        shows_to_session(json@, user),
{
    lemma_session_user(user);
}

/// An object is the body that answers a registration or a log in of a user.
pub open spec fn is_session_body(body: Json, user: AuthUserRecord) -> bool {
    &&& body.get("user"@) matches Some(shown) && shows_to_session(shown, user)
    &&& forall|key: Seq<char>| key != "user"@ ==> #[trigger] body.get(key) is None
}

/// The body that answers a registration or a log in shows the user.
pub(crate) proof fn lemma_session_body(user: AuthUserRecord)
    ensures
        is_session_body(auth_response(user@), user),
{
    lemma_session_user(user);
}

/// The body that answers a registration or a log in shows the user, and holds nothing else.
pub proof fn law_session_body(user: AuthUserRecord, body: Value)
    requires
        call_ensures(auth_response_json, (&user,), body),
    ensures
        is_session_body(body@, user),
{
    lemma_session_body(user);
}

/// An object shows the profile of a user, to itself or to others.
pub open spec fn shows_profile(json: Json, user: AuthUserRecord, include_private: bool) -> bool {
    let metadata = user.user_metadata@;
    let app = user.app_metadata@;
    let role = app.text_at("role"@);
    &&& json.get("id"@) == Some(Json::String(user.id@))
    &&& json.get("_id"@) == Some(Json::String(user.id@))
    &&& json.text_at("name"@) matches Some(name) && {
        &&& !include_private ==> is_name(metadata, "Vantage user"@, name)
        &&& include_private ==> exists|email: Seq<char>|
            #[trigger] is_email(user, email) && is_name(metadata, email, name)
    }
    &&& has_text_or_null(
        json,
        "full_name"@,
        if metadata.text_at("full_name"@) is Some {
            metadata.text_at("full_name"@)
        } else {
            metadata.text_at("name"@)
        },
    )
    &&& include_private || role != Some("admin"@) ==> has_text_or(
        json,
        "role"@,
        role,
        "customer"@,
    )
    &&& !include_private && role == Some("admin"@) ==> json.get("role"@) == Some(
        Json::String("customer"@),
    )
    &&& has_text_or_null(json, "profile_picture"@, metadata.text_at("profile_picture"@))
    &&& has_text_or_null(json, "about_me"@, metadata.text_at("about_me"@))
    &&& has_text_or_null(json, "created_at"@, string_view(user.created_at))
    &&& shows_preferences(json, metadata)
    &&& include_private ==> {
        &&& json.text_at("email"@) matches Some(email)
        &&& is_email(user, email)
        &&& has_text_or(json, "subscription_tier"@, app.text_at("subscription_tier"@), "FREE"@)
    }
    &&& forall|key: Seq<char>|
        !is_public_key(key) && !(include_private && (key == "email"@ || key
            == "subscription_tier"@)) ==> #[trigger] json.get(key) is None
}

/// The members of a user, but for its preferences, as a profile shows them.
proof fn lemma_profile_members(user: AuthUserRecord, include_private: bool)
    ensures
        ({
            let json = shown_user(user@, include_private);
            let metadata = user.user_metadata@;
            let app = user.app_metadata@;
            let instead = if include_private {
                email_of(user@)
            } else {
                "Vantage user"@
            };
            &&& json.get("id"@) == Some(Json::String(user.id@))
            &&& json.get("_id"@) == Some(Json::String(user.id@))
            &&& json.get("name"@) == Some(Json::String(shown_name(full_name_of(user@), instead)))
            &&& has_text_or_null(json, "full_name"@, full_name_of(user@))
            &&& json.get("role"@) == Some(Json::String(shown_role(user@, include_private)))
            &&& has_text_or_null(json, "profile_picture"@, metadata.text_at("profile_picture"@))
            &&& has_text_or_null(json, "about_me"@, metadata.text_at("about_me"@))
            &&& has_text_or_null(json, "created_at"@, string_view(user.created_at))
            &&& include_private ==> {
                &&& json.get("email"@) == Some(Json::String(email_of(user@)))
                &&& has_text_or(
                    json,
                    "subscription_tier"@,
                    app.text_at("subscription_tier"@),
                    "FREE"@,
                )
            }
        }),
{
    lemma_names();
}

/// The preferences are among the members that a profile shows.
proof fn lemma_profile_preferences(user: AuthUserRecord, include_private: bool)
    ensures
        shows_preferences(shown_user(user@, include_private), user.user_metadata@),
{
    lemma_names();
    let members = shown_user(user@, include_private).members();
    lemma_preferences(members, user.user_metadata@);
    assert(with_preferences(members, preferences_of(user@)) =~= members);
}

/// A profile shows just what its user holds.
pub(crate) proof fn lemma_profile(user: AuthUserRecord, include_private: bool)
    ensures
        shows_profile(shown_user(user@, include_private), user, include_private),
{
    let json = shown_user(user@, include_private);
    lemma_profile_members(user, include_private);
    lemma_profile_preferences(user, include_private);
    lemma_name(user, "Vantage user"@);
    lemma_name(user, email_of(user@));
    lemma_email(user);
    assert forall|key: Seq<char>|
        !is_public_key(key) && !(include_private && (key == "email"@ || key
            == "subscription_tier"@)) implies #[trigger] json.get(key) is None by {
        assert(!json.members().contains_key(key));
    }
}

/// A profile shows each member that its user holds and that may be seen, and no other.
pub proof fn law_profile(user: AuthUserRecord, include_private: bool, json: Value)
    requires
        call_ensures(user_json, (&user, include_private), json),
    ensures
        shows_profile(json@, user, include_private),
{
    lemma_profile(user, include_private);
}

/// The answer to a question for a user that was looked up.
pub open spec fn answers(
    found: Result<AuthUserRecord, anyhow::Error>,
    include_private: bool,
    body: Result<Value, AppError>,
) -> bool {
    match found {
        Ok(user) => {
            &&& body matches Ok(body)
            &&& shows_profile(body@, user, include_private)
        },
        Err(cause) => body == Err::<Value, AppError>(AppError::Other(cause)),
    }
}

/// A user that was looked up is shown.
pub(crate) proof fn lemma_answer(
    found: Result<AuthUserRecord, anyhow::Error>,
    include_private: bool,
    body: Result<Value, AppError>,
)
    requires
        user_shown(found, include_private, body),
    ensures
        answers(found, include_private, body),
{
    if let Ok(user) = found {
        lemma_profile(user, include_private);
    }
}

/// A user that asks about itself is looked up by its own id, and sees what is private.
pub proof fn law_get_me(
    auth_user: AuthUser,
    id: String,
    found: Result<AuthUserRecord, anyhow::Error>,
    body: Result<Value, AppError>,
)
    requires
        call_ensures(get_me, (&auth_user,), id),
        call_ensures(get_me_found, (found,), body),
    ensures
        id@ == auth_user.id@,
        answers(found, true, body),
{
    lemma_answer(found, true, body);
}

/// A profile is asked for by an id that is checked first, and is shown as to others.
pub proof fn law_get_user_profile(
    user_id: String,
    first: ProfileStep,
    id: Result<String, AppError>,
    second: ProfileStep,
    found: Result<AuthUserRecord, anyhow::Error>,
    last: ProfileStep,
)
    requires
        call_ensures(get_user_profile, (user_id,), first),
        call_ensures(ProfileId::resume, (first->CheckId_0, id), second),
        id is Ok ==> call_ensures(ProfileLookup::resume, (second->GetUser_0, found), last),
    ensures
        first matches ProfileStep::CheckId(_, check) && check.id@ == user_id@ && check.label@
            == "user ID"@,
        id matches Ok(id) ==> {
            &&& second matches ProfileStep::GetUser(_, wanted)
            &&& wanted@ == id@
            &&& last matches ProfileStep::Done(body)
            &&& answers(found, false, body)
        },
        id matches Err(error) ==> second == ProfileStep::Done(Err(error)),
{
    if let ProfileStep::Done(body) = last {
        if id is Ok {
            lemma_answer(found, false, body);
        }
    }
}

} // verus!
