//! What holds of users, their metadata and their profiles, whatever they are.

use crate::auth::{
    auth_failure, auth_response, public_user, registered_app, registered_user, role_for,
};
use crate::errors::Failure;
use crate::headers::{cookie_lines, fits_header};
use crate::metadata::{changed, merged, overlaid, with_member};
use crate::models::{UserRole, UserView};
use crate::profile::{email_of, full_name_of};
use crate::register::captcha_token;
use crate::review_list::page_of;
use crate::reviews::rpc_unavailable;
use crate::sign_in::{complete, defaulted_app, defaulted_user};
use crate::text::{ascii_lowered, is_white_space, occurs, occurs_at, trimmed};
use crate::users::{shown_role, shown_user};
use crate::value::{Json, Value};
use vstd::prelude::*;

verus! {

/// The members that show a user to its own session.
pub open spec fn is_session_key(key: Seq<char>) -> bool {
    ||| key == "id"@
    ||| key == "_id"@
    ||| key == "email"@
    ||| key == "name"@
    ||| key == "full_name"@
    ||| key == "role"@
    ||| key == "profile_picture"@
    ||| key == "subscription_tier"@
    ||| key == "created_at"@
    ||| key == "auth_provider"@
    ||| is_preference_key(key)
}

/// The members that show the preferences of a user.
pub open spec fn is_preference_key(key: Seq<char>) -> bool {
    ||| key == "preferences"@
    ||| key == "preferred_categories"@
    ||| key == "preferred_vibes"@
    ||| key == "prefer_independent"@
    ||| key == "price_pref"@
    ||| key == "discovery_mode"@
    ||| key == "preferences_completed"@
}

/// The members under which a token would be handed out.
pub open spec fn is_token_key(key: Seq<char>) -> bool {
    key == "access_token"@ || key == "refresh_token"@ || key == "token_type"@
}

/// How long the names of members are, which tells most of them apart.
proof fn lemma_key_lengths()
    ensures
        "access_token"@.len() == 12,
        "refresh_token"@.len() == 13,
        "token_type"@.len() == 10,
        "user"@.len() == 4,
        "id"@.len() == 2,
        "_id"@.len() == 3,
        "email"@.len() == 5,
        "name"@.len() == 4,
        "full_name"@.len() == 9,
        "role"@.len() == 4,
        "profile_picture"@.len() == 15,
        "subscription_tier"@.len() == 17,
        "created_at"@.len() == 10,
        "auth_provider"@.len() == 13,
        "preferences"@.len() == 11,
        "preferred_categories"@.len() == 20,
        "preferred_vibes"@.len() == 15,
        "prefer_independent"@.len() == 18,
        "price_pref"@.len() == 10,
        "discovery_mode"@.len() == 14,
        "preferences_completed"@.len() == 21,
        "about_me"@.len() == 8,
        "admin"@.len() == 5,
        "customer"@.len() == 8,
{
    reveal_strlit("access_token");
    reveal_strlit("refresh_token");
    reveal_strlit("token_type");
    reveal_strlit("user");
    reveal_strlit("id");
    reveal_strlit("_id");
    reveal_strlit("email");
    reveal_strlit("name");
    reveal_strlit("full_name");
    reveal_strlit("role");
    reveal_strlit("profile_picture");
    reveal_strlit("subscription_tier");
    reveal_strlit("created_at");
    reveal_strlit("auth_provider");
    reveal_strlit("preferences");
    reveal_strlit("preferred_categories");
    reveal_strlit("preferred_vibes");
    reveal_strlit("prefer_independent");
    reveal_strlit("price_pref");
    reveal_strlit("discovery_mode");
    reveal_strlit("preferences_completed");
    reveal_strlit("about_me");
    reveal_strlit("admin");
    reveal_strlit("customer");
}

/// No member that shows a user is one for a token.
proof fn lemma_tokens_are_not_shown(key: Seq<char>)
    requires
        is_token_key(key),
    ensures
        !is_session_key(key),
        key != "user"@,
{
    lemma_key_lengths();
    reveal_strlit("refresh_token");
    reveal_strlit("auth_provider");
    reveal_strlit("token_type");
    reveal_strlit("created_at");
    reveal_strlit("price_pref");
    assert("refresh_token"@[0] != "auth_provider"@[0]);
    assert("token_type"@[0] != "created_at"@[0]);
    assert("token_type"@[0] != "price_pref"@[0]);
}

/// The answer to a registration or a log in holds the user and nothing else, and of the user just
/// the members that are shown; there is no bearer token among them.
pub proof fn law_auth_response_has_no_tokens(user: UserView)
    ensures
        auth_response(user).members().dom() == set!["user"@],
        auth_response(user).get("user"@) == Some(public_user(user)),
        forall|key: Seq<char>| #[trigger]
            public_user(user).members().contains_key(key) <==> is_session_key(key),
        forall|key: Seq<char>| #[trigger]
            is_token_key(key) ==> auth_response(user).get(key) is None && public_user(user).get(
                key,
            ) is None,
{
    assert(auth_response(user).members().dom() =~= set!["user"@]);
    assert forall|key: Seq<char>| #[trigger] is_token_key(key) implies auth_response(user).get(
        key,
    ) is None && public_user(user).get(key) is None by {
        lemma_tokens_are_not_shown(key);
        assert(!public_user(user).members().contains_key(key));
    }
}

/// The members that show a user to others.
pub open spec fn is_public_key(key: Seq<char>) -> bool {
    ||| key == "id"@
    ||| key == "_id"@
    ||| key == "name"@
    ||| key == "full_name"@
    ||| key == "role"@
    ||| key == "profile_picture"@
    ||| key == "about_me"@
    ||| key == "created_at"@
    ||| is_preference_key(key)
}

/// Neither the email address nor the subscription tier is a member that shows a user to others.
proof fn lemma_private_keys()
    ensures
        !is_public_key("email"@),
        !is_public_key("subscription_tier"@),
        "email"@ != "subscription_tier"@,
{
    lemma_key_lengths();
}

/// A profile shown to others has just the members that are public: no email address, and no
/// subscription tier.
pub proof fn law_public_profile_excludes_email(user: UserView)
    ensures
        forall|key: Seq<char>| #[trigger]
            shown_user(user, false).members().contains_key(key) <==> is_public_key(key),
        shown_user(user, false).get("email"@) is None,
        shown_user(user, false).get("subscription_tier"@) is None,
{
    lemma_private_keys();
    assert(!shown_user(user, false).members().contains_key("email"@));
    assert(!shown_user(user, false).members().contains_key("subscription_tier"@));
}

/// Nothing of a profile shown to others depends on the email address.
pub proof fn law_public_profile_ignores_email(user: UserView, email: Option<Seq<char>>)
    ensures
        shown_user(UserView { email, ..user }, false) == shown_user(user, false),
{
}

/// A profile shown to others has the neutral name where the user gave none, or a blank one.
pub proof fn law_public_profile_without_name(user: UserView)
    requires
        full_name_of(user) matches Some(name) ==> trimmed(name).len() == 0,
    ensures
        shown_user(user, false).text_at("name"@) == Some("Vantage user"@),
{
    lemma_profile_keys_differ();
}

/// Members of a profile that are set one after the other do not hide each other.
proof fn lemma_profile_keys_differ()
    ensures
        "name"@ != "full_name"@,
        "name"@ != "role"@,
        "name"@ != "profile_picture"@,
        "name"@ != "about_me"@,
        "name"@ != "created_at"@,
        !is_preference_key("name"@),
        "role"@ != "profile_picture"@,
        "role"@ != "about_me"@,
        "role"@ != "created_at"@,
        "role"@ != "email"@,
        "role"@ != "subscription_tier"@,
        !is_preference_key("role"@),
{
    lemma_key_lengths();
    reveal_strlit("name");
    reveal_strlit("role");
    assert("name"@[0] != "role"@[0]);
}

/// A profile shown to the user itself holds the email address, which is empty where there is
/// none.
pub proof fn law_private_profile_includes_email(user: UserView)
    ensures
        shown_user(user, true).get("email"@) == Some(Json::String(email_of(user))),
{
    lemma_private_keys();
}

/// No profile shown to others says that its user is an administrator; one of an administrator
/// says what one of a customer says.
pub proof fn law_public_profile_hides_admin(user: UserView)
    ensures
        shown_user(user, false).text_at("role"@) == Some(shown_role(user, false)),
        shown_role(user, false) != "admin"@,
        user.app_metadata.text_at("role"@) == Some("admin"@) ==> shown_role(user, false)
            == "customer"@,
{
    lemma_key_lengths();
    lemma_profile_keys_differ();
}

/// Nobody registers as anything but a customer.
pub proof fn law_only_customers_register(role: Option<UserRole>)
    ensures
        role_for(role) is Ok <==> role is None || role == Some(UserRole::Customer),
        role_for(role) matches Ok(name) ==> name == "customer"@,
        role_for(role) matches Err(failure) ==> failure == Failure::Forbidden(
            "This role cannot be self-registered"@,
        ),
{
}

/// To merge a patch in sets every member that is not null in the patch, and keeps every other
/// one as it is: a null takes nothing away.
pub proof fn law_merge(target: Json, patch: Json, key: Seq<char>)
    ensures
        changed(patch.members(), key) ==> merged(target, patch).get(key) == patch.get(key),
        !changed(patch.members(), key) ==> merged(target, patch).get(key) == target.get(key),
{
}

/// To merge a patch in once more changes nothing.
pub proof fn law_merge_twice(target: Json, patch: Json)
    ensures
        merged(merged(target, patch), patch) == merged(target, patch),
{
    assert(overlaid(overlaid(target.members(), patch.members()), patch.members()) =~= overlaid(
        target.members(),
        patch.members(),
    ));
}

/// What is put under a key is found there, and what is under other keys stays.
pub proof fn law_put(metadata: Json, key: Seq<char>, value: Json, other: Seq<char>)
    ensures
        with_member(metadata, key, value).get(key) == Some(value),
        other != key ==> with_member(metadata, key, value).get(other) == metadata.get(other),
{
}

/// The metadata that a registration writes: the role and the tier are those of the registration
/// whatever was there before, the name is the one given, and no other member is touched.
pub proof fn law_registration_metadata(
    user: UserView,
    role: Seq<char>,
    full_name: Option<Seq<char>>,
    key: Seq<char>,
)
    ensures
        merged(user.app_metadata, registered_app(role)).text_at("role"@) == Some(role),
        merged(user.app_metadata, registered_app(role)).text_at("subscription_tier"@) == Some(
            "FREE"@,
        ),
        merged(user.user_metadata, registered_user(full_name)).text_at("auth_provider"@) == Some(
            "email"@,
        ),
        full_name matches Some(name) ==> {
            &&& merged(user.user_metadata, registered_user(full_name)).text_at("full_name"@)
                == Some(name)
            &&& merged(user.user_metadata, registered_user(full_name)).text_at("name"@) == Some(
                name,
            )
        },
        key != "role"@ && key != "subscription_tier"@ ==> merged(
            user.app_metadata,
            registered_app(role),
        ).get(key) == user.app_metadata.get(key),
        key != "full_name"@ && key != "name"@ && key != "auth_provider"@ ==> merged(
            user.user_metadata,
            registered_user(full_name),
        ).get(key) == user.user_metadata.get(key),
        full_name is None && key != "auth_provider"@ ==> merged(
            user.user_metadata,
            registered_user(full_name),
        ).get(key) == user.user_metadata.get(key),
{
    lemma_key_lengths();
}

/// A user that was given what it lacked lacks nothing any more.
pub proof fn law_defaults_are_complete(
    app_metadata: Json,
    user_metadata: Json,
    default_role: Option<Seq<char>>,
    provider: Option<Seq<char>>,
)
    ensures
        complete(
            defaulted_app(app_metadata, default_role),
            defaulted_user(user_metadata, provider),
            provider,
        ),
{
    lemma_key_lengths();
}

/// A user that lacks nothing is left as it is, so that giving it what it lacks a second time
/// changes nothing.
pub proof fn law_defaults_twice(
    app_metadata: Json,
    user_metadata: Json,
    default_role: Option<Seq<char>>,
    provider: Option<Seq<char>>,
)
    ensures
        complete(app_metadata, user_metadata, provider) ==> defaulted_app(
            app_metadata,
            default_role,
        ) == app_metadata && defaulted_user(user_metadata, provider) == user_metadata,
        defaulted_app(defaulted_app(app_metadata, default_role), default_role) == defaulted_app(
            app_metadata,
            default_role,
        ),
        defaulted_user(defaulted_user(user_metadata, provider), provider) == defaulted_user(
            user_metadata,
            provider,
        ),
{
    law_defaults_are_complete(app_metadata, user_metadata, default_role, provider);
}

/// A role or a tier that a user has is kept, and so is every other member; a user without a role
/// gets the default one.
pub proof fn law_defaults_keep(
    metadata: Json,
    default_role: Option<Seq<char>>,
    key: Seq<char>,
)
    ensures
        metadata.text_at("role"@) matches Some(role) ==> defaulted_app(
            metadata,
            default_role,
        ).text_at("role"@) == Some(role),
        metadata.text_at("subscription_tier"@) matches Some(tier) ==> defaulted_app(
            metadata,
            default_role,
        ).text_at("subscription_tier"@) == Some(tier),
        metadata.text_at("role"@) is None ==> defaulted_app(metadata, default_role).text_at(
            "role"@,
        ) == Some(crate::profile::text_or(default_role, "customer"@)),
        key != "role"@ && key != "subscription_tier"@ ==> defaulted_app(
            metadata,
            default_role,
        ).get(key) == metadata.get(key),
{
    lemma_key_lengths();
}

/// Lower case stays lower case.
proof fn lemma_ascii_lowered_twice(text: Seq<char>)
    ensures
        ascii_lowered(ascii_lowered(text)) == ascii_lowered(text),
{
    assert(ascii_lowered(ascii_lowered(text)) =~= ascii_lowered(text));
}

/// What a message of the authentication service means does not depend on its case.
pub proof fn law_auth_failure_ignores_case(message: Seq<char>)
    ensures
        auth_failure(ascii_lowered(message)) == auth_failure(message),
{
    lemma_ascii_lowered_twice(message);
}

/// A message of the authentication service is never passed on: the failure says one of four
/// things.
pub proof fn law_auth_failure_is_fixed(message: Seq<char>)
    ensures
        ({
            ||| auth_failure(message) == Failure::Conflict("Email already registered"@)
            ||| auth_failure(message) == Failure::Internal("Supabase is not configured"@)
            ||| auth_failure(message) == Failure::Unauthorized("Invalid credentials"@)
            ||| auth_failure(message) == Failure::Internal("Authentication service unavailable"@)
        }),
{
}

/// Whether a message speaks of a missing function does not depend on its case.
pub proof fn law_rpc_unavailable_ignores_case(message: Seq<char>)
    ensures
        rpc_unavailable(ascii_lowered(message)) == rpc_unavailable(message),
{
    lemma_ascii_lowered_twice(message);
}

/// Trimmed text is a part of the text, has no white space at its ends, and stays as it is when it
/// is trimmed once more.
pub proof fn law_trimmed(text: Seq<char>)
    ensures
        occurs(text, trimmed(text)),
        trimmed(text).len() > 0 ==> !is_white_space(trimmed(text).first()) && !is_white_space(
            trimmed(text).last(),
        ),
        trimmed(trimmed(text)) == trimmed(text),
    decreases text.len(),
{
    let inner = trimmed(text);
    if text.len() > 0 && is_white_space(text.first()) {
        let rest = text.drop_first();
        law_trimmed(rest);
        let at = choose|at: int| occurs_at(rest, inner, at);
        assert(rest.subrange(at, at + inner.len()) =~= text.subrange(
            at + 1,
            at + 1 + inner.len(),
        ));
        assert(occurs_at(text, inner, at + 1));
    } else if text.len() > 0 && is_white_space(text.last()) {
        let rest = text.drop_last();
        law_trimmed(rest);
        let at = choose|at: int| occurs_at(rest, inner, at);
        assert(rest.subrange(at, at + inner.len()) =~= text.subrange(at, at + inner.len()));
        assert(occurs_at(text, inner, at));
    } else {
        assert(text.subrange(0, text.len() as int) =~= text);
        assert(occurs_at(text, inner, 0));
    }
}

/// A token that is verified is not blank, has no white space at its ends, and is not the word
/// that stands for a service that is not set up.
pub proof fn law_captcha_token(given: Option<Seq<char>>)
    ensures
        captcha_token(given) matches Some(token) ==> {
            &&& token.len() > 0
            &&& !is_white_space(token.first())
            &&& !is_white_space(token.last())
            &&& token != "recaptcha-not-configured"@
        },
{
    if let Some(token) = given {
        law_trimmed(token);
    }
}

/// Every cookie that can stand in a header is set, in its order, and no other one.
pub proof fn law_cookies(cookies: Seq<String>)
    ensures
        cookie_lines(cookies) == cookies.filter(|cookie: String| fits_header(cookie@)).map_values(
            |cookie: String| vstd::utf8::encode_utf8(cookie@),
        ),
    decreases cookies.len(),
{
    let fits = |cookie: String| fits_header(cookie@);
    let bytes = |cookie: String| vstd::utf8::encode_utf8(cookie@);
    reveal(Seq::filter);
    if cookies.len() > 0 {
        law_cookies(cookies.drop_last());
        let front = cookies.drop_last().filter(fits);
        if fits(cookies.last()) {
            assert(front.push(cookies.last()).map_values(bytes) =~= front.map_values(bytes).push(
                bytes(cookies.last()),
            ));
        }
    } else {
        assert(cookies.filter(fits).map_values(bytes) =~= Seq::empty());
    }
}

/// A page is the beginning of what was found: as many as it may have, and all of them where there
/// are no more, or where it has no limit.
pub proof fn law_page(reviews: Seq<Value>, limit: i64)
    ensures
        page_of(reviews, limit).is_prefix_of(reviews),
        0 <= limit < reviews.len() ==> page_of(reviews, limit).len() == limit,
        limit < 0 || limit >= reviews.len() ==> page_of(reviews, limit) == reviews,
{
}

} // verus!
