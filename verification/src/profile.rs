//! What the two ways of showing a user have in common.

use crate::metadata::metadata_str;
use crate::models::{AuthUserRecord, UserView};
use crate::text::{borrowed, trim, trimmed};
use crate::value::{str_view, Json, Object, Value};
use vstd::prelude::*;

verus! {

/// The email address of a user, empty where there is none.
pub open spec fn email_of(user: UserView) -> Seq<char> {
    match user.email {
        Some(email) => email,
        None => ""@,
    }
}

/// The name that a user gave: `full_name` if that is text, else `name`.
pub open spec fn full_name_of(user: UserView) -> Option<Seq<char>> {
    match user.user_metadata.text_at("full_name"@) {
        Some(name) => Some(name),
        None => user.user_metadata.text_at("name"@),
    }
}

/// The name to show: the one given, unless there is none or it is blank.
pub open spec fn shown_name(given: Option<Seq<char>>, instead: Seq<char>) -> Seq<char> {
    match given {
        Some(name) => if trimmed(name).len() == 0 {
            instead
        } else {
            name
        },
        None => instead,
    }
}

/// The text where there is one, and `instead` where there is none.
pub open spec fn text_or(text: Option<Seq<char>>, instead: Seq<char>) -> Seq<char> {
    match text {
        Some(text) => text,
        None => instead,
    }
}

/// The preferences of a user, null where there are none.
pub open spec fn preferences_of(user: UserView) -> Json {
    user.user_metadata.get_or_null("preferences"@)
}

/// The members with the preferences of a user added: as a whole, and one by one.
pub open spec fn with_preferences(
    members: Map<Seq<char>, Json>,
    preferences: Json,
) -> Map<Seq<char>, Json> {
    members.insert("preferences"@, preferences).insert(
        "preferred_categories"@,
        preferences.get_or_null("preferred_categories"@),
    ).insert("preferred_vibes"@, preferences.get_or_null("preferred_vibes"@)).insert(
        "prefer_independent"@,
        preferences.get_or_null("prefer_independent"@),
    ).insert("price_pref"@, preferences.get_or_null("price_pref"@)).insert(
        "discovery_mode"@,
        preferences.get_or_null("discovery_mode"@),
    ).insert("preferences_completed"@, preferences.get_or_null("preferences_completed"@))
}

pub(crate) fn email(user: &AuthUserRecord) -> (email: &str)
    ensures
        email@ == email_of(user@),
{
    match &user.email {
        Some(email) => email.as_str(),
        None => "",
    }
}

pub(crate) fn full_name(user: &AuthUserRecord) -> (name: Option<&str>)
    ensures
        str_view(name) == full_name_of(user@),
{
    match metadata_str(&user.user_metadata, "full_name") {
        Some(name) => Some(name),
        None => metadata_str(&user.user_metadata, "name"),
    }
}

pub(crate) fn name_to_show<'a>(given: Option<&'a str>, instead: &'a str) -> (name: &'a str)
    ensures
        name@ == shown_name(str_view(given), instead@),
{
    match given {
        Some(name) => if trim(name).is_empty() {
            instead
        } else {
            name
        },
        None => instead,
    }
}

pub(crate) fn or_else<'a>(text: Option<&'a str>, instead: &'a str) -> (result: &'a str)
    ensures
        result@ == text_or(str_view(text), instead@),
{
    match text {
        Some(text) => text,
        None => instead,
    }
}

pub(crate) fn created_at(user: &AuthUserRecord) -> (value: Value)
    ensures
        value@ == crate::value::text_or_null(user@.created_at),
{
    Value::text_or_null(borrowed(&user.created_at))
}

pub(crate) fn add_preferences(object: Object, preferences: Value) -> (result: Object)
    ensures
        result@ == with_preferences(object@, preferences@),
{
    let categories = preferences.get_or_null("preferred_categories");
    let vibes = preferences.get_or_null("preferred_vibes");
    let independent = preferences.get_or_null("prefer_independent");
    let price = preferences.get_or_null("price_pref");
    let discovery = preferences.get_or_null("discovery_mode");
    let completed = preferences.get_or_null("preferences_completed");
    object.insert("preferences", preferences).insert("preferred_categories", categories).insert(
        "preferred_vibes",
        vibes,
    ).insert("prefer_independent", independent).insert("price_pref", price).insert(
        "discovery_mode",
        discovery,
    ).insert("preferences_completed", completed)
}

} // verus!
