//! The names of members: no two of them are the same text.

use vstd::prelude::*;

verus! {

/// How long the names of members are, and that names of one length are different.
pub(crate) proof fn lemma_names()
    ensures
        "id"@.len() == 2,
        "_id"@.len() == 3,
        "email"@.len() == 5,
        "name"@.len() == 4,
        "full_name"@.len() == 9,
        "role"@.len() == 4,
        "profile_picture"@.len() == 15,
        "subscription_tier"@.len() == 17,
        "created_at"@.len() == 10,
        "auth_provider"@.len() == 13,
        "preferences"@.len() == 11,
        "preferred_categories"@.len() == 20,
        "preferred_vibes"@.len() == 15,
        "prefer_independent"@.len() == 18,
        "price_pref"@.len() == 10,
        "discovery_mode"@.len() == 14,
        "preferences_completed"@.len() == 21,
        "about_me"@.len() == 8,
        "access_token"@.len() == 12,
        "refresh_token"@.len() == 13,
        "token_type"@.len() == 10,
        "user"@.len() == 4,
        "admin"@.len() == 5,
        "customer"@.len() == 8,
        "app_metadata"@.len() == 12,
        "user_metadata"@.len() == 13,
        "business_id"@.len() == 11,
        "user_id"@.len() == 7,
        "user_name"@.len() == 9,
        "rating"@.len() == 6,
        "comment"@.len() == 7,
        "is_verified"@.len() == 11,
        "credibility_weight"@.len() == 18,
        "helpful_count"@.len() == 13,
        "updated_at"@.len() == 10,
        "review_count"@.len() == 12,
        "items"@.len() == 5,
        "pagination"@.len() == 10,
        "has_more"@.len() == 8,
        "next_cursor"@.len() == 11,
        "email"@ != "admin"@,
        "email"@ != "items"@,
        "name"@ != "role"@,
        "name"@ != "user"@,
        "full_name"@ != "user_name"@,
        "role"@ != "user"@,
        "profile_picture"@ != "preferred_vibes"@,
        "created_at"@ != "price_pref"@,
        "created_at"@ != "token_type"@,
        "created_at"@ != "updated_at"@,
        "created_at"@ != "pagination"@,
        "auth_provider"@ != "refresh_token"@,
        "auth_provider"@ != "user_metadata"@,
        "auth_provider"@ != "helpful_count"@,
        "preferences"@ != "business_id"@,
        "preferences"@ != "is_verified"@,
        "preferences"@ != "next_cursor"@,
        "prefer_independent"@ != "credibility_weight"@,
        "price_pref"@ != "token_type"@,
        "price_pref"@ != "updated_at"@,
        "price_pref"@ != "pagination"@,
        "about_me"@ != "customer"@,
        "about_me"@ != "has_more"@,
        "access_token"@ != "app_metadata"@,
        "access_token"@ != "review_count"@,
        "refresh_token"@ != "user_metadata"@,
        "refresh_token"@ != "helpful_count"@,
        "token_type"@ != "updated_at"@,
        "token_type"@ != "pagination"@,
        "admin"@ != "items"@,
        "customer"@ != "has_more"@,
        "app_metadata"@ != "review_count"@,
        "user_metadata"@ != "helpful_count"@,
        "business_id"@ != "is_verified"@,
        "business_id"@ != "next_cursor"@,
        "user_id"@ != "comment"@,
        "is_verified"@ != "next_cursor"@,
        "updated_at"@ != "pagination"@,
{
    reveal_strlit("id");
    reveal_strlit("_id");
    reveal_strlit("email");
    reveal_strlit("name");
    reveal_strlit("full_name");
    reveal_strlit("role");
    reveal_strlit("profile_picture");
    reveal_strlit("subscription_tier");
    reveal_strlit("created_at");
    reveal_strlit("auth_provider");
    reveal_strlit("preferences");
    reveal_strlit("preferred_categories");
    reveal_strlit("preferred_vibes");
    reveal_strlit("prefer_independent");
    reveal_strlit("price_pref");
    reveal_strlit("discovery_mode");
    reveal_strlit("preferences_completed");
    reveal_strlit("about_me");
    reveal_strlit("access_token");
    reveal_strlit("refresh_token");
    reveal_strlit("token_type");
    reveal_strlit("user");
    reveal_strlit("admin");
    reveal_strlit("customer");
    reveal_strlit("app_metadata");
    reveal_strlit("user_metadata");
    reveal_strlit("business_id");
    reveal_strlit("user_id");
    reveal_strlit("user_name");
    reveal_strlit("rating");
    reveal_strlit("comment");
    reveal_strlit("is_verified");
    reveal_strlit("credibility_weight");
    reveal_strlit("helpful_count");
    reveal_strlit("updated_at");
    reveal_strlit("review_count");
    reveal_strlit("items");
    reveal_strlit("pagination");
    reveal_strlit("has_more");
    reveal_strlit("next_cursor");
    assert("email"@[0] != "admin"@[0]);
    assert("email"@[0] != "items"@[0]);
    assert("name"@[0] != "role"@[0]);
    assert("name"@[0] != "user"@[0]);
    assert("full_name"@[0] != "user_name"@[0]);
    assert("role"@[0] != "user"@[0]);
    assert("profile_picture"@[2] != "preferred_vibes"@[2]);
    assert("created_at"@[0] != "price_pref"@[0]);
    assert("created_at"@[0] != "token_type"@[0]);
    assert("created_at"@[0] != "updated_at"@[0]);
    assert("created_at"@[0] != "pagination"@[0]);
    assert("auth_provider"@[0] != "refresh_token"@[0]);
    assert("auth_provider"@[0] != "user_metadata"@[0]);
    assert("auth_provider"@[0] != "helpful_count"@[0]);
    assert("preferences"@[0] != "business_id"@[0]);
    assert("preferences"@[0] != "is_verified"@[0]);
    assert("preferences"@[0] != "next_cursor"@[0]);
    assert("prefer_independent"@[0] != "credibility_weight"@[0]);
    assert("price_pref"@[0] != "token_type"@[0]);
    assert("price_pref"@[0] != "updated_at"@[0]);
    assert("price_pref"@[1] != "pagination"@[1]);
    assert("about_me"@[0] != "customer"@[0]);
    assert("about_me"@[0] != "has_more"@[0]);
    assert("access_token"@[1] != "app_metadata"@[1]);
    assert("access_token"@[0] != "review_count"@[0]);
    assert("refresh_token"@[0] != "user_metadata"@[0]);
    assert("refresh_token"@[0] != "helpful_count"@[0]);
    assert("token_type"@[0] != "updated_at"@[0]);
    assert("token_type"@[0] != "pagination"@[0]);
    assert("admin"@[0] != "items"@[0]);
    assert("customer"@[0] != "has_more"@[0]);
    assert("app_metadata"@[0] != "review_count"@[0]);
    assert("user_metadata"@[0] != "helpful_count"@[0]);
    assert("business_id"@[0] != "is_verified"@[0]);
    assert("business_id"@[0] != "next_cursor"@[0]);
    assert("user_id"@[0] != "comment"@[0]);
    assert("is_verified"@[0] != "next_cursor"@[0]);
    assert("updated_at"@[0] != "pagination"@[0]);
}

} // verus!
