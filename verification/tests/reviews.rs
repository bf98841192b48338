use vantage::models::AuthUser;
use vantage::reviews::{ensure_not_owned_business_review, review_summary_rpc_unavailable};
use vantage::value::{Object, Value};

fn auth_user(id: &str) -> AuthUser {
    AuthUser {
        id: id.into(),
        email: "owner@example.com".into(),
        name: "Owner".into(),
        role: "business_owner".into(),
    }
}

#[test]
fn review_summary_rpc_unavailable_detects_missing_migration_only() {
    assert!(review_summary_rpc_unavailable(
        "Could not find the function public.refresh_business_review_summary in the schema cache"
    ));
    assert!(review_summary_rpc_unavailable(
        "function refresh_business_review_summary(uuid) does not exist"
    ));
    assert!(!review_summary_rpc_unavailable(
        "permission denied for function refresh_business_review_summary"
    ));
}

#[test]
fn business_owners_cannot_review_their_own_listing() {
    let business = Value::Object(Object::new().insert(
        "owner_id",
        Value::text("550e8400-e29b-41d4-a716-446655440000"),
    ));

    assert!(ensure_not_owned_business_review(
        &business,
        &auth_user("550e8400-e29b-41d4-a716-446655440000")
    )
    .is_err());
    assert!(ensure_not_owned_business_review(
        &business,
        &auth_user("660e8400-e29b-41d4-a716-446655440000")
    )
    .is_ok());
}
