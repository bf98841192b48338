//! Profiles: how a user is shown, to itself and to others.

use crate::errors::AppError;
use crate::metadata::metadata_str;
use crate::models::{AuthUser, AuthUserRecord, IdCheck, UserView};
use crate::profile::{
    add_preferences, created_at, email, email_of, full_name, full_name_of, name_to_show, or_else,
    preferences_of, shown_name, text_or, with_preferences,
};
use crate::text::same;
use crate::value::{text_or_null, Json, Object, Value};
use vstd::prelude::*;

verus! {

/// The role that is shown: to others an administrator is a customer like any other.
pub open spec fn shown_role(user: UserView, include_private: bool) -> Seq<char> {
    let role = text_or(user.app_metadata.text_at("role"@), "customer"@);
    if !include_private && role == "admin"@ {
        "customer"@
    } else {
        role
    }
}

/// A user as it is shown: to itself with what is private, to others without.
pub open spec fn shown_user(user: UserView, include_private: bool) -> Json {
    let shown = with_preferences(
        map![
            "id"@ => Json::String(user.id),
            "_id"@ => Json::String(user.id),
            "name"@ => Json::String(
                shown_name(
                    full_name_of(user),
                    if include_private { email_of(user) } else { "Vantage user"@ },
                ),
            ),
            "full_name"@ => text_or_null(full_name_of(user)),
            "role"@ => Json::String(shown_role(user, include_private)),
            "profile_picture"@ => text_or_null(user.user_metadata.text_at("profile_picture"@)),
            "about_me"@ => text_or_null(user.user_metadata.text_at("about_me"@)),
            "created_at"@ => text_or_null(user.created_at)
        ],
        preferences_of(user),
    );
    if include_private {
        Json::Object(
            shown.insert("email"@, Json::String(email_of(user))).insert(
                "subscription_tier"@,
                Json::String(text_or(user.app_metadata.text_at("subscription_tier"@), "FREE"@)),
            ),
        )
    } else {
        Json::Object(shown)
    }
}

/// A user as it is shown: to itself with what is private, to others without.
pub fn user_json(user: &AuthUserRecord, include_private: bool) -> (json: Value)
    ensures
        json@ == shown_user(user@, include_private),
{
    let given = full_name(user);
    let address = email(user);
    let name = name_to_show(
        given,
        if include_private {
            address
        } else {
            "Vantage user"
        },
    );
    let preferences = user.user_metadata.get_or_null("preferences");
    let role = or_else(metadata_str(&user.app_metadata, "role"), "customer");
    // Never expose admin status on public profiles.
    let public_role = if same(role, "admin") {
        "customer"
    } else {
        role
    };
    let object = Object::new().insert("id", Value::text(user.id.as_str())).insert(
        "_id",
        Value::text(user.id.as_str()),
    ).insert("name", Value::text(name)).insert("full_name", Value::text_or_null(given)).insert(
        "role",
        Value::text(
            if include_private {
                role
            } else {
                public_role
            },
        ),
    ).insert(
        "profile_picture",
        Value::text_or_null(metadata_str(&user.user_metadata, "profile_picture")),
    ).insert(
        "about_me",
        Value::text_or_null(metadata_str(&user.user_metadata, "about_me")),
    ).insert("created_at", created_at(user));
    let object = add_preferences(object, preferences);
    if include_private {
        let tier = or_else(metadata_str(&user.app_metadata, "subscription_tier"), "FREE");
        Value::Object(
            object.insert("email", Value::text(address)).insert(
                "subscription_tier",
                Value::text(tier),
            ),
        )
    } else {
        Value::Object(object)
    }
}

/// What a request about one user is answered with once the user is looked up.
pub open spec fn user_shown(
    user: Result<AuthUserRecord, anyhow::Error>,
    include_private: bool,
    body: Result<Value, AppError>,
) -> bool {
    match user {
        Ok(user) => {
            &&& body matches Ok(body)
            &&& body@ == shown_user(user@, include_private)
        },
        Err(error) => body == Err::<Value, AppError>(AppError::Other(error)),
    }
}

pub(crate) fn show_user(
    user: Result<AuthUserRecord, anyhow::Error>,
    include_private: bool,
) -> (body: Result<Value, AppError>)
    ensures
        user_shown(user, include_private, body),
{
    match user {
        Ok(user) => Ok(user_json(&user, include_private)),
        Err(error) => Err(AppError::Other(error)),
    }
}

/// The id of the user that asks about itself.
pub fn get_me(auth_user: &AuthUser) -> (id: String)
    ensures
        id@ == auth_user.id@,
{
    auth_user.id.clone()
}

/// Ends the question of a user about itself.
pub fn get_me_found(user: Result<AuthUserRecord, anyhow::Error>) -> (body: Result<Value, AppError>)
    ensures
        user_shown(user, true, body),
{
    show_user(user, true)
}

/// What is to be done next when a profile is asked for.
#[derive(Debug)]
pub enum ProfileStep {
    /// Check that this is an id.
    CheckId(ProfileId, IdCheck),
    /// Look up the user with this id.
    GetUser(ProfileLookup, String),
    /// Answer.
    Done(Result<Value, AppError>),
}

/// A profile whose id is being checked.
#[derive(Debug)]
pub struct ProfileId;

/// A profile whose user is being looked up.
#[derive(Debug)]
pub struct ProfileLookup;

/// Begins the question for the profile of a user.
pub fn get_user_profile(user_id: String) -> (step: ProfileStep)
    ensures
        step matches ProfileStep::CheckId(next, check) && {
            &&& check.id == user_id
            &&& check.label@ == "user ID"@
        },
{
    ProfileStep::CheckId(ProfileId, IdCheck { id: user_id, label: "user ID" })
}

impl ProfileId {
    /// The step that follows on an outcome.
    pub open spec fn leads_to(self, id: Result<String, AppError>, step: ProfileStep) -> bool {
        match id {
            Ok(id) => step == ProfileStep::GetUser(ProfileLookup, id),
            Err(error) => step == ProfileStep::Done(Err(error)),
        }
    }

    /// Goes on with the checked id.
    pub fn resume(self, id: Result<String, AppError>) -> (step: ProfileStep)
        ensures
            self.leads_to(id, step),
    {
        match id {
            Ok(id) => ProfileStep::GetUser(ProfileLookup, id),
            Err(error) => ProfileStep::Done(Err(error)),
        }
    }
}

impl ProfileLookup {
    /// The step that follows on an outcome.
    pub open spec fn leads_to(
        self,
        user: Result<AuthUserRecord, anyhow::Error>,
        step: ProfileStep,
    ) -> bool {
        step matches ProfileStep::Done(body) && user_shown(user, false, body)
    }

    /// Ends with the profile.
    pub fn resume(self, user: Result<AuthUserRecord, anyhow::Error>) -> (step: ProfileStep)
        ensures
            self.leads_to(user, step),
    {
        ProfileStep::Done(show_user(user, false))
    }
}

} // verus!
