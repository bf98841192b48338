//! What holds of JSON values, and of what values of the library stand for.

use crate::backend::{Param, ParamView, Query};
use crate::errors::{lists, prints, AppError, Failure};
use crate::headers::header_lines;
use crate::models::{AuthUserRecord, Response};
use crate::value::{
    json_list, str_view, string_view, text_or_null, value_view, Json, Object, Value,
};
use vstd::prelude::*;
use vstd::string::to_string_from_display_ensures;

verus! {

/// A member is found just where there is an object that has it under the key.
pub proof fn law_member(value: Json, key: Seq<char>, member: Json)
    ensures
        value.get(key) == Some(member) <==> (value matches Json::Object(members)
            && members.contains_key(key) && members[key] == member),
        value.get(key) is None <==> !(value matches Json::Object(members)
            && members.contains_key(key)),
        value.get_or_null(key) == member <==> value.get(key) == Some(member) || (value.get(
            key,
        ) is None && member is Null),
{
}

/// A text is found just where there is an object that has it, as a string, under the key.
pub proof fn law_text(value: Json, key: Seq<char>, text: Seq<char>)
    ensures
        value.as_str() == Some(text) <==> value == Json::String(text),
        value.text_at(key) == Some(text) <==> (value matches Json::Object(members)
            && members.contains_key(key) && members[key] == Json::String(text)),
{
}

/// An object has its members, and nothing else has any.
pub proof fn law_members(value: Json, members: Map<Seq<char>, Json>)
    ensures
        Json::Object(members).members() == members,
        !(value is Object) ==> forall|key: Seq<char>| !value.members().contains_key(key),
{
}

/// Texts that may be missing keep what they hold.
pub proof fn law_optional_texts(slice: &str, text: String, value: &Value, given: Seq<char>)
    ensures
        str_view(Some(slice)) == Some(slice@),
        str_view(None) is None,
        string_view(Some(text)) == Some(text@),
        string_view(None) is None,
        value_view(Some(value)) == Some(value@),
        value_view(None) is None,
        text_or_null(Some(given)) == Json::String(given),
        text_or_null(None) == Json::Null,
{
}

/// A value stands for what it holds.
pub proof fn law_value(value: Value)
    ensures
        match value {
            Value::Null => value@ == Json::Null,
            Value::Bool(truth) => value@ == Json::Bool(truth),
            Value::Number(number) => value@ == Json::Number(number),
            Value::String(text) => value@ == Json::String(text@),
            Value::Array(values) => {
                &&& value@ matches Json::Array(items)
                &&& items.len() == values@.len()
                &&& forall|i: int| 0 <= i < items.len() ==> #[trigger] items[i] == values@[i]@
            },
            Value::Object(object) => value@ == Json::Object(object@),
        },
{
    if let Value::Array(values) = value {
        crate::value::lemma_json_list(values@);
        assert forall|i: int| 0 <= i < values@.len() implies #[trigger] json_list(values@)[i]
            == values@[i]@ by {
            assert(values@[i]@ == json_list(values@)[i]);
        }
    }
}

/// What is inserted under a key is found under it, in place of what was there before.
pub proof fn law_insert_then_get(
    object: Object,
    key: &str,
    value: Value,
    inserted: Object,
    found: Option<&Value>,
)
    requires
        call_ensures(Object::insert, (object, key, value), inserted),
        call_ensures(Object::get, (&inserted, key), found),
    ensures
        found matches Some(found) && found@ == value@,
{
}

/// An insert under one key leaves what is found under another as it is.
pub proof fn law_insert_keeps_the_rest(
    object: Object,
    key: &str,
    value: Value,
    inserted: Object,
    other: &str,
    before: Option<&Value>,
    after: Option<&Value>,
)
    requires
        other@ != key@,
        call_ensures(Object::insert, (object, key, value), inserted),
        call_ensures(Object::get, (&object, other), before),
        call_ensures(Object::get, (&inserted, other), after),
    ensures
        before is Some <==> after is Some,
        before matches Some(before) ==> before@ == after->0@,
{
}

/// Nothing is found in a new object.
pub proof fn law_new_object(object: Object, key: &str, found: Option<&Value>)
    requires
        call_ensures(Object::new, (), object),
        call_ensures(Object::get, (&object, key), found),
    ensures
        found is None,
{
}

/// A member of a value is what its object has under the key, and a copy of it is the same.
pub proof fn law_value_get(
    object: Object,
    value: Value,
    key: &str,
    found: Option<&Value>,
    within: Option<&Value>,
    copy: Value,
)
    requires
        value == Value::Object(object),
        call_ensures(Object::get, (&object, key), found),
        call_ensures(Value::get, (&value, key), within),
        call_ensures(Value::get_or_null, (&value, key), copy),
    ensures
        found is Some <==> within is Some,
        found matches Some(found) ==> found@ == within->0@ && copy@ == found@,
        found is None ==> copy@ == Json::Null,
{
}

/// A text that is made a value is read back.
pub proof fn law_text_value(
    text: &str,
    value: Value,
    read: Option<&str>,
    given: Option<&str>,
    optional: Value,
    null: bool,
)
    requires
        call_ensures(Value::text, (text,), value),
        call_ensures(Value::as_str, (&value,), read),
        call_ensures(Value::text_or_null, (given,), optional),
        call_ensures(Value::is_null, (&optional,), null),
    ensures
        read matches Some(read) && read@ == text@,
        null <==> given is None,
        given matches Some(given) ==> optional@ == Json::String(given@),
{
}

/// A copy stands for the same.
pub proof fn law_clone(value: Value, copy: Value, object: Object, other: Object)
    requires
        call_ensures(Value::clone, (&value,), copy),
        call_ensures(Object::clone, (&object,), other),
    ensures
        copy@ == value@,
        other@ == object@,
{
}

/// The members of an object are listed one by one: what stands at a place is found under its key,
/// and no key stands at two places.
pub proof fn law_listed(
    object: Object,
    count: usize,
    at: usize,
    entry: (&str, &Value),
    found: Option<&Value>,
    later: usize,
    next: (&str, &Value),
)
    requires
        call_ensures(Object::len, (&object,), count),
        at < later < count,
        call_ensures(Object::entry, (&object, at), entry),
        call_ensures(Object::entry, (&object, later), next),
        call_ensures(Object::get, (&object, entry.0), found),
    ensures
        found matches Some(found) && found@ == entry.1@,
        entry.0@ != next.0@,
{
}

/// Every member of an object is listed.
pub proof fn law_all_listed(object: Object, count: usize, key: &str, found: Option<&Value>)
    requires
        call_ensures(Object::len, (&object,), count),
        call_ensures(Object::get, (&object, key), found),
    ensures
        found is Some ==> exists|at: int| 0 <= at < count && #[trigger] object.keys()[at] == key@,
{
    if found is Some {
        assert(object@.contains_key(key@));
        assert(object.keys().contains(key@));
    }
}

/// A failure says what its error says.
pub proof fn law_failure(error: AppError)
    ensures
        match error {
            AppError::BadRequest(message) => error@ == Failure::BadRequest(message@),
            AppError::Unauthorized(message) => error@ == Failure::Unauthorized(message@),
            AppError::Forbidden(message) => error@ == Failure::Forbidden(message@),
            AppError::NotFound(message) => error@ == Failure::NotFound(message@),
            AppError::Conflict(message) => error@ == Failure::Conflict(message@),
            AppError::RateLimited => error@ == Failure::RateLimited,
            AppError::Internal(message) => error@ == Failure::Internal(message@),
            AppError::Other(cause) => error@ == Failure::Other(cause),
            AppError::Untyped(message) => error@ == Failure::Untyped(message@),
        },
{
}

/// A text is printed by an error just when it is what making a string of the error may give.
pub proof fn law_printed(
    error: anyhow::Error,
    errors: validator::ValidationErrors,
    text: Seq<char>,
)
    ensures
        prints(error, text) <==> exists|printed: String|
            #[trigger] to_string_from_display_ensures::<anyhow::Error>(&error, printed)
                && printed@ == text,
        lists(errors, text) <==> exists|printed: String|
            #[trigger] to_string_from_display_ensures::<validator::ValidationErrors>(
                &errors,
                printed,
            ) && printed@ == text,
{
}

/// A condition of a query says what it is made of.
pub proof fn law_param(param: Param)
    ensures
        match param {
            Param::SelectAll => param@ == ParamView::SelectAll,
            Param::Select(column) => param@ == ParamView::Select(column@),
            Param::Eq(column, value) => param@ == ParamView::Eq(column@, value@),
            Param::Gte(column, value) => param@ == ParamView::Gte(column@, value@),
            Param::Order(order) => param@ == ParamView::Order(order@),
            Param::Limit(count) => param@ == ParamView::Limit(count),
            Param::Offset(count) => param@ == ParamView::Offset(count),
        },
{
}

/// A query says its table and its conditions, one by one in their order.
pub proof fn law_query(query: Query)
    ensures
        query@.table == query.table@,
        query@.params.len() == query.params@.len(),
        forall|i: int|
            0 <= i < query.params@.len() ==> query@.params[i] == (#[trigger] query.params@[i])@,
{
}

/// A user, and an answer, hold what their fields hold.
pub proof fn law_records(user: AuthUserRecord, response: Response)
    ensures
        user@.id == user.id@,
        user.email matches Some(email) ==> user@.email == Some(email@),
        user.email is None ==> user@.email is None,
        user@.user_metadata == user.user_metadata@,
        user@.app_metadata == user.app_metadata@,
        user.created_at matches Some(time) ==> user@.created_at == Some(time@),
        user.created_at is None ==> user@.created_at is None,
        response@.status == response.status,
        response@.headers == header_lines(response.headers),
        response@.body == response.body@,
{
}

} // verus!
