use axum::http::{HeaderMap, HeaderValue};
use vantage::backend::{Param, Query};
use vantage::clock::{Timestamp, FIRST_SECOND, LAST_SECOND};
use vantage::errors::AppError;
use vantage::metadata::metadata_str;
use vantage::models::AuthUser;
use vantage::rating::{double_value, validate_rating};
use vantage::review_change::{
    delete_review, update_review, DeleteFound, DeleteStep, ReviewUpdate, UpdateBusiness,
    UpdateDraft, UpdateFound, UpdateRate, UpdateStep,
};
use vantage::review_list::{
    list_business_reviews, ListStep, PageMeta, PaginationParams, Window,
};
use vantage::review_rating::{
    refresh_business_review_summary, review_ratings, update_business_rating,
    update_business_rating_fallback, RatingAverage, RatingClock, RatingRefresh, RatingRows,
    RatingStep,
};
use vantage::review_write::{
    create_review, find_review, CreateBusiness, CreateClock, CreateDraft, CreateExisting,
    CreateInsert, CreateStep, FindStep, ReviewCreate,
};
use vantage::reviews::{
    duplicate_review, ensure_review_rate_allowed, ensure_review_update_rate_allowed,
    map_review_insert_error, review_rate_allowed, review_update_rate_allowed,
};
use vantage::value::{Number, Object, Value};

fn user(id: &str, role: &str) -> AuthUser {
    AuthUser {
        id: id.into(),
        email: "u@example.com".into(),
        name: "U".into(),
        role: role.into(),
    }
}

fn row(members: &[(&str, &str)]) -> Value {
    let mut object = Object::new();
    for (key, text) in members {
        object = object.insert(key, Value::text(text));
    }
    Value::Object(object)
}

fn shown(query: &Query) -> String {
    format!("{} {:?}", query.table, query.params)
}

fn noon() -> Timestamp {
    Timestamp::new(1_779_192_000, 500_000_000).unwrap()
}

fn other_error(error: AppError) -> String {
    match error {
        AppError::Other(error) => error.to_string(),
        other => panic!("{other:?}"),
    }
}

#[test]
fn ratings_are_numbers_from_one_to_five() {
    for rating in [1.0f64, 1.0000000000000002, 2.5, 4.999999999999999, 5.0] {
        assert!(validate_rating(rating.to_bits()).is_ok());
    }
    let bad = [
        0.9999999999999999f64,
        5.000000000000001,
        0.0,
        -0.0,
        -3.0,
        5e-324,
        f64::MAX,
        f64::INFINITY,
        f64::NEG_INFINITY,
        f64::NAN,
        -f64::NAN,
    ];
    for rating in bad {
        match validate_rating(rating.to_bits()) {
            Err(AppError::BadRequest(m)) => assert_eq!(m, "Rating must be between 1 and 5"),
            other => panic!("{other:?}"),
        }
    }
}

#[test]
fn points_in_time_are_written_as_rfc_3339_has_it() {
    assert_eq!(Timestamp::new(0, 0).unwrap().to_rfc3339(), "1970-01-01T00:00:00+00:00");
    assert_eq!(noon().to_rfc3339(), "2026-05-19T12:00:00.500+00:00");
    assert_eq!(noon().before(3600).to_rfc3339(), "2026-05-19T11:00:00.500+00:00");
    assert_eq!(Timestamp::new(-1, 1).unwrap().to_rfc3339(), "1969-12-31T23:59:59.000000001+00:00");
}

#[test]
fn points_in_time_have_dates() {
    for secs in [FIRST_SECOND, LAST_SECOND] {
        assert!(!Timestamp::new(secs, 999_999_999).unwrap().to_rfc3339().is_empty());
    }
    assert!(Timestamp::new(FIRST_SECOND - 1, 0).is_none());
    assert!(Timestamp::new(LAST_SECOND + 1, 0).is_none());
    assert!(Timestamp::new(0, 1_000_000_000).is_none());
}

#[test]
fn eight_reviews_in_an_hour_are_enough() {
    let query = ensure_review_rate_allowed(noon(), "u1");
    assert_eq!(
        shown(&query),
        "reviews [Eq(\"user_id\", \"u1\"), Gte(\"created_at\", \"2026-05-19T11:00:00.500+00:00\")]"
    );
    assert!(review_rate_allowed(Ok(7)).is_ok());
    assert!(matches!(review_rate_allowed(Ok(8)), Err(AppError::RateLimited)));
    assert!(matches!(review_rate_allowed(Ok(9)), Err(AppError::RateLimited)));
    let error = review_rate_allowed(Err(anyhow::Error::msg("down"))).unwrap_err();
    assert_eq!(other_error(error), "down");
}

#[test]
fn changes_of_a_review_are_counted_by_user_and_review() {
    let check = ensure_review_update_rate_allowed("u1", "r1");
    assert_eq!(check.key, "review-update:u1:r1");
    assert_eq!(check.limit, 8);
    assert_eq!(check.window_secs, 3600);
    assert!(review_update_rate_allowed(true).is_ok());
    assert!(matches!(review_update_rate_allowed(false), Err(AppError::RateLimited)));
}

#[test]
fn a_second_row_for_a_review_is_a_conflict() {
    assert!(duplicate_review("DUPLICATE key"));
    assert!(duplicate_review("violates Unique constraint"));
    assert!(!duplicate_review("un ique"));
    let conflict = map_review_insert_error(anyhow::Error::msg("Duplicate key value"));
    assert!(matches!(
        conflict,
        AppError::Conflict(m) if m == "You have already reviewed this business"
    ));
    assert_eq!(other_error(map_review_insert_error(anyhow::Error::msg("down"))), "down");
}

#[test]
fn a_review_is_found_by_its_id() {
    let next = match find_review("raw".into()) {
        FindStep::CheckId(next, check) => {
            assert_eq!((check.id.as_str(), check.label), ("raw", "review ID"));
            next
        }
        other => panic!("{other:?}"),
    };
    let next = match next.resume(Ok("r1".into())) {
        FindStep::SelectOne(next, query) => {
            assert_eq!(shown(&query), "reviews [SelectAll, Eq(\"id\", \"r1\")]");
            next
        }
        other => panic!("{other:?}"),
    };
    assert!(matches!(
        next.resume(Ok(None)),
        FindStep::Done(Err(AppError::NotFound(m))) if m == "Review not found"
    ));
}

fn new_review(rating: f64) -> ReviewCreate {
    ReviewCreate {
        business_id: "raw".into(),
        rating: rating.to_bits(),
        comment: Some(" nice ".into()),
    }
}

fn business_step() -> CreateBusiness {
    let next = match create_review(new_review(4.5), user("u1", "customer")) {
        CreateStep::CheckId(next, check) => {
            assert_eq!((check.id.as_str(), check.label), ("raw", "business ID"));
            next
        }
        other => panic!("{other:?}"),
    };
    match next.resume(Ok("b1".into())) {
        CreateStep::SelectBusiness(next, query) => {
            assert_eq!(shown(&query), "businesses [SelectAll, Eq(\"id\", \"b1\")]");
            next
        }
        other => panic!("{other:?}"),
    }
}

fn existing_step() -> CreateExisting {
    match business_step().resume(Ok(Some(row(&[("owner_id", "u2")])))) {
        CreateStep::SelectExisting(next, query) => {
            assert_eq!(
                shown(&query),
                "reviews [SelectAll, Eq(\"business_id\", \"b1\"), Eq(\"user_id\", \"u1\")]"
            );
            next
        }
        other => panic!("{other:?}"),
    }
}

fn clock_step() -> CreateClock {
    match existing_step().resume(Ok(None)) {
        CreateStep::ReadClock(next) => next,
        other => panic!("{other:?}"),
    }
}

fn draft_step() -> CreateDraft {
    let next = match clock_step().resume(noon()) {
        CreateStep::CountRecent(next, query) => {
            assert_eq!(query.table, "reviews");
            next
        }
        other => panic!("{other:?}"),
    };
    match next.resume(Ok(0)) {
        CreateStep::Compose(next, request) => {
            assert_eq!(request.text.as_deref(), Some(" nice "));
            assert_eq!(request.limit, 2000);
            next
        }
        other => panic!("{other:?}"),
    }
}

fn insert_step(comment: Option<&str>) -> (CreateInsert, Value) {
    match draft_step().resume(noon(), "U Name".into(), comment.map(|c| c.into())) {
        CreateStep::InsertReview(next, insert) => {
            assert_eq!(insert.table, "reviews");
            (next, insert.row)
        }
        other => panic!("{other:?}"),
    }
}

#[test]
fn a_new_review_has_all_its_members() {
    let (_, review) = insert_step(Some("nice"));
    assert_eq!(metadata_str(&review, "business_id"), Some("b1"));
    assert_eq!(metadata_str(&review, "user_id"), Some("u1"));
    assert_eq!(metadata_str(&review, "user_name"), Some("U Name"));
    assert_eq!(metadata_str(&review, "comment"), Some("nice"));
    assert_eq!(metadata_str(&review, "created_at"), Some("2026-05-19T12:00:00.500+00:00"));
    assert_eq!(metadata_str(&review, "updated_at"), Some("2026-05-19T12:00:00.500+00:00"));
    assert!(matches!(review.get("is_verified"), Some(Value::Bool(false))));
    let number = |key: &str| match review.get(key) {
        Some(Value::Number(number)) => *number,
        other => panic!("{other:?}"),
    };
    assert_eq!(number("rating"), Number::Float(4.5f64.to_bits()));
    assert_eq!(number("credibility_weight"), Number::Float(1.0f64.to_bits()));
    assert_eq!(number("helpful_count"), Number::PosInt(0));
    match &review {
        Value::Object(object) => assert_eq!(object.len(), 10),
        other => panic!("{other:?}"),
    }
    assert_eq!(metadata_str(&insert_step(None).1, "comment"), Some(""));
}

#[test]
fn a_written_review_is_shown_when_the_rating_is_up_to_date() {
    let refresh = || match insert_step(None).0.resume(Ok(row(&[("id", "r1")]))) {
        CreateStep::RefreshRating(next, id) => {
            assert_eq!(id, "b1");
            next
        }
        other => panic!("{other:?}"),
    };
    match refresh().resume(Ok(())) {
        CreateStep::Done(Ok(written)) => {
            assert_eq!(written.status, 201);
            assert_eq!(metadata_str(&written.row, "id"), Some("r1"));
        }
        other => panic!("{other:?}"),
    }
    assert!(matches!(
        refresh().resume(Err(AppError::RateLimited)),
        CreateStep::Done(Err(AppError::RateLimited))
    ));
}

#[test]
fn a_review_is_refused_for_each_reason() {
    match create_review(new_review(5.5), user("u1", "customer")) {
        CreateStep::Done(Err(AppError::BadRequest(m))) => {
            assert_eq!(m, "Rating must be between 1 and 5")
        }
        other => panic!("{other:?}"),
    }
    match business_step().resume(Ok(None)) {
        CreateStep::Done(Err(AppError::NotFound(m))) => assert_eq!(m, "Business not found"),
        other => panic!("{other:?}"),
    }
    match business_step().resume(Ok(Some(row(&[("owner_id", "u1")])))) {
        CreateStep::Done(Err(AppError::Forbidden(m))) => {
            assert_eq!(m, "Business owners cannot review their own listing")
        }
        other => panic!("{other:?}"),
    }
    match existing_step().resume(Ok(Some(Value::Null))) {
        CreateStep::Done(Err(AppError::Conflict(m))) => {
            assert_eq!(m, "You have already reviewed this business")
        }
        other => panic!("{other:?}"),
    }
    let rate = match clock_step().resume(noon()) {
        CreateStep::CountRecent(next, _) => next,
        other => panic!("{other:?}"),
    };
    assert!(matches!(rate.resume(Ok(8)), CreateStep::Done(Err(AppError::RateLimited))));
    match insert_step(None).0.resume(Err(anyhow::Error::msg("UNIQUE"))) {
        CreateStep::Done(Err(AppError::Conflict(_))) => {}
        other => panic!("{other:?}"),
    }
}

fn change(rating: Option<f64>, comment: Option<&str>) -> ReviewUpdate {
    ReviewUpdate {
        rating: rating.map(|r| r.to_bits()),
        comment: comment.map(|c| c.into()),
    }
}

fn own_row() -> Value {
    row(&[("user_id", "u1"), ("business_id", "b1")])
}

fn update_found(payload: ReviewUpdate) -> UpdateFound {
    match update_review("R1".into(), payload, user("u1", "admin")) {
        UpdateStep::FindReview(next, id) => {
            assert_eq!(id, "R1");
            next
        }
        other => panic!("{other:?}"),
    }
}

fn update_business(payload: ReviewUpdate) -> UpdateBusiness {
    match update_found(payload).resume(Ok(own_row())) {
        UpdateStep::SelectBusiness(next, query) => {
            assert_eq!(shown(&query), "businesses [SelectAll, Eq(\"id\", \"b1\")]");
            next
        }
        other => panic!("{other:?}"),
    }
}

fn update_rate(payload: ReviewUpdate) -> UpdateRate {
    match update_business(payload).resume(Ok(Some(row(&[("owner_id", "u2")])))) {
        UpdateStep::CheckRate(next, check) => {
            assert_eq!(check.key, "review-update:u1:R1");
            next
        }
        other => panic!("{other:?}"),
    }
}

fn update_draft(payload: ReviewUpdate) -> UpdateDraft {
    match update_rate(payload).resume(true) {
        UpdateStep::ReadClock(next) => next,
        other => panic!("{other:?}"),
    }
}

fn commented_draft(payload: ReviewUpdate, cleaned: &str) -> UpdateDraft {
    let next = match update_rate(payload).resume(true) {
        UpdateStep::SanitizeComment(next, request) => {
            assert_eq!(request.text.as_deref(), Some("x"));
            assert_eq!(request.limit, 2000);
            next
        }
        other => panic!("{other:?}"),
    };
    match next.resume(cleaned.into()) {
        UpdateStep::ReadClock(next) => next,
        other => panic!("{other:?}"),
    }
}

#[test]
fn a_change_writes_what_is_given() {
    let next = match commented_draft(change(Some(2.0), Some("x")), "y").resume(noon()) {
        UpdateStep::UpdateRows(next, update) => {
            assert_eq!(shown(&update.rows), "reviews [Eq(\"id\", \"R1\"), Eq(\"user_id\", \"u1\")]");
            assert_eq!(
                metadata_str(&update.members, "updated_at"),
                Some("2026-05-19T12:00:00.500+00:00")
            );
            assert_eq!(metadata_str(&update.members, "comment"), Some("y"));
            match update.members.get("rating") {
                Some(Value::Number(rating)) => {
                    assert_eq!(*rating, Number::Float(2.0f64.to_bits()))
                }
                other => panic!("{other:?}"),
            }
            next
        }
        other => panic!("{other:?}"),
    };
    let rows = vec![row(&[("id", "first")]), row(&[("id", "second")])];
    let next = match next.resume(Ok(rows)) {
        UpdateStep::RefreshRating(next, id) => {
            assert_eq!(id, "b1");
            next
        }
        other => panic!("{other:?}"),
    };
    match next.resume(Ok(())) {
        UpdateStep::Done(Ok(row)) => assert_eq!(metadata_str(&row, "id"), Some("first")),
        other => panic!("{other:?}"),
    }
}

#[test]
fn a_change_without_anything_writes_the_time() {
    let next = match update_draft(change(None, None)).resume(noon()) {
        UpdateStep::UpdateRows(next, update) => {
            match &update.members {
                Value::Object(object) => assert_eq!(object.len(), 1),
                other => panic!("{other:?}"),
            }
            next
        }
        other => panic!("{other:?}"),
    };
    assert!(matches!(
        next.resume(Ok(vec![])),
        UpdateStep::Done(Err(AppError::NotFound(m))) if m == "Review not found"
    ));
}

#[test]
fn a_comment_is_written_even_when_nothing_is_left_of_it() {
    match commented_draft(change(None, Some("x")), "").resume(noon()) {
        UpdateStep::UpdateRows(_, update) => {
            assert_eq!(metadata_str(&update.members, "comment"), Some(""));
            assert!(update.members.get("rating").is_none());
        }
        other => panic!("{other:?}"),
    }
    match update_draft(change(Some(5.0), None)).resume(noon()) {
        UpdateStep::UpdateRows(_, update) => {
            assert!(update.members.get("comment").is_none());
            assert!(update.members.get("rating").is_some());
        }
        other => panic!("{other:?}"),
    }
}

#[test]
fn a_change_is_refused_for_each_reason() {
    let theirs = row(&[("user_id", "u2"), ("business_id", "b1")]);
    match update_found(change(None, None)).resume(Ok(theirs)) {
        UpdateStep::Done(Err(AppError::Forbidden(m))) => assert_eq!(m, "Not your review"),
        other => panic!("{other:?}"),
    }
    match update_business(change(None, None)).resume(Ok(None)) {
        UpdateStep::Done(Err(AppError::NotFound(m))) => assert_eq!(m, "Business not found"),
        other => panic!("{other:?}"),
    }
    let owned = row(&[("owner_id", "u1")]);
    match update_business(change(None, None)).resume(Ok(Some(owned))) {
        UpdateStep::Done(Err(AppError::Forbidden(m))) => {
            assert_eq!(m, "Business owners cannot review their own listing")
        }
        other => panic!("{other:?}"),
    }
    assert!(matches!(
        update_rate(change(Some(9.0), None)).resume(false),
        UpdateStep::Done(Err(AppError::RateLimited))
    ));
    assert!(matches!(
        update_rate(change(Some(9.0), None)).resume(true),
        UpdateStep::Done(Err(AppError::BadRequest(_)))
    ));
}

fn delete_found(id: &str, role: &str) -> DeleteFound {
    match delete_review("R1".into(), user(id, role)) {
        DeleteStep::FindReview(next, wanted) => {
            assert_eq!(wanted, "R1");
            next
        }
        other => panic!("{other:?}"),
    }
}

#[test]
fn users_delete_their_own_reviews_and_administrators_any() {
    for (id, role) in [("u1", "customer"), ("u9", "admin")] {
        let next = match delete_found(id, role).resume(Ok(own_row())) {
            DeleteStep::DeleteRows(next, query) => {
                assert_eq!(shown(&query), "reviews [Eq(\"id\", \"R1\")]");
                next
            }
            other => panic!("{other:?}"),
        };
        let next = match next.resume(Ok(())) {
            DeleteStep::RefreshRating(next, id) => {
                assert_eq!(id, "b1");
                next
            }
            other => panic!("{other:?}"),
        };
        match next.resume(Ok(())) {
            DeleteStep::Done(Ok(body)) => {
                assert_eq!(metadata_str(&body, "message"), Some("Review deleted"))
            }
            other => panic!("{other:?}"),
        }
    }
    match delete_found("u9", "Admin").resume(Ok(own_row())) {
        DeleteStep::Done(Err(AppError::Forbidden(m))) => assert_eq!(m, "Not your review"),
        other => panic!("{other:?}"),
    }
}

fn refresh_step() -> RatingRefresh {
    let next = match update_business_rating("raw".into()) {
        RatingStep::CheckId(next, check) => {
            assert_eq!((check.id.as_str(), check.label), ("raw", "business ID"));
            next
        }
        other => panic!("{other:?}"),
    };
    match next.resume(Ok("b1".into())) {
        RatingStep::Refresh(next, call) => {
            assert_eq!(call.function, "refresh_business_review_summary");
            assert_eq!(metadata_str(&call.arguments, "p_business_id"), Some("b1"));
            next
        }
        other => panic!("{other:?}"),
    }
}

#[test]
fn the_database_brings_a_rating_up_to_date() {
    assert_eq!(
        metadata_str(&refresh_business_review_summary("b7").arguments, "p_business_id"),
        Some("b7")
    );
    assert!(matches!(
        refresh_step().resume(Ok(vec![Value::Null])),
        RatingStep::Done(Ok(()))
    ));
    match refresh_step().resume(Ok(vec![])) {
        RatingStep::Done(Err(AppError::Untyped(m))) => assert_eq!(m, "Business not found"),
        other => panic!("{other:?}"),
    }
    match refresh_step().resume(Err(anyhow::Error::msg("permission denied"))) {
        RatingStep::Done(Err(error)) => assert_eq!(other_error(error), "permission denied"),
        other => panic!("{other:?}"),
    }
}

fn select_step() -> RatingRows {
    match refresh_step().resume(Err(anyhow::Error::msg("not in the Schema Cache"))) {
        RatingStep::SelectRatings(next, query) => {
            assert_eq!(shown(&query), "reviews [Select(\"rating\"), Eq(\"business_id\", \"b1\")]");
            next
        }
        other => panic!("{other:?}"),
    }
}

fn average_step(rows: Vec<Value>) -> (RatingAverage, Vec<Number>, u64) {
    match select_step().resume(Ok(rows)) {
        RatingStep::Average(next, request) => (next, request.ratings, request.count),
        other => panic!("{other:?}"),
    }
}

fn rated(number: Number) -> Value {
    Value::Object(Object::new().insert("rating", Value::Number(number)))
}

fn rating_rows() -> Vec<Value> {
    vec![
        rated(Number::PosInt(4)),
        row(&[("rating", "5")]),
        rated(Number::Float(2.5f64.to_bits())),
        Value::Null,
        rated(Number::NegInt(-1)),
    ]
}

#[test]
fn rows_without_a_rating_count_and_add_nothing() {
    let wanted = vec![Number::PosInt(4), Number::Float(2.5f64.to_bits()), Number::NegInt(-1)];
    assert_eq!(review_ratings(&rating_rows()), wanted);
    let (_, ratings, count) = average_step(rating_rows());
    assert_eq!(ratings, wanted);
    assert_eq!(count, 5);
}

fn averaged(average: f64) -> RatingClock {
    let (next, _, _) = average_step(rating_rows());
    match next.resume(average.to_bits()) {
        RatingStep::ReadClock(next) => next,
        other => panic!("{other:?}"),
    }
}

#[test]
fn a_summary_is_written_into_the_business() {
    let next = match averaged(1.1).resume(noon()) {
        RatingStep::UpdateBusiness(next, update) => {
            assert_eq!(shown(&update.rows), "businesses [Eq(\"id\", \"b1\")]");
            assert!(matches!(
                update.members.get("review_count"),
                Some(Value::Number(Number::PosInt(5)))
            ));
            assert!(matches!(
                update.members.get("rating"),
                Some(Value::Number(Number::Float(bits))) if *bits == 1.1f64.to_bits()
            ));
            assert_eq!(
                metadata_str(&update.members, "updated_at"),
                Some("2026-05-19T12:00:00.500+00:00")
            );
            next
        }
        other => panic!("{other:?}"),
    };
    assert!(matches!(next.resume(Ok(())), RatingStep::Done(Ok(()))));

    let next = match select_step().resume(Ok(vec![])) {
        RatingStep::ReadClock(next) => next,
        other => panic!("{other:?}"),
    };
    match next.resume(noon()) {
        RatingStep::UpdateBusiness(next, update) => {
            assert!(update.members.get("rating").unwrap().is_null());
            assert!(matches!(
                update.members.get("review_count"),
                Some(Value::Number(Number::PosInt(0)))
            ));
            match next.resume(Err(anyhow::Error::msg("down"))) {
                RatingStep::Done(Err(error)) => assert_eq!(other_error(error), "down"),
                other => panic!("{other:?}"),
            }
        }
        other => panic!("{other:?}"),
    }
}

#[test]
fn a_double_that_is_no_number_is_null() {
    for number in [0.0f64, -0.0, 3.25, -1e300, f64::MAX, f64::MIN_POSITIVE, 5e-324] {
        assert!(matches!(
            double_value(number.to_bits()),
            Value::Number(Number::Float(bits)) if bits == number.to_bits()
        ));
    }
    for number in [f64::INFINITY, f64::NEG_INFINITY, f64::NAN, -f64::NAN] {
        assert!(double_value(number.to_bits()).is_null());
    }
    assert!(averaged(f64::INFINITY).rating.is_null());
}

#[test]
fn the_fallback_selects_the_ratings() {
    match update_business_rating_fallback("b2".into()) {
        RatingStep::SelectRatings(_, query) => assert!(matches!(
            query.params.last(),
            Some(Param::Eq("business_id", id)) if id == "b2"
        )),
        other => panic!("{other:?}"),
    }
}

fn page_headers() -> HeaderMap {
    let mut headers = HeaderMap::new();
    headers.insert("x-has-more", HeaderValue::from_static("true"));
    headers
}

fn list(window: Window, rows: usize, include_pagination: Option<bool>) -> Value {
    let params = PaginationParams {
        limit: Some(3),
        offset: None,
        cursor: Some("c".into()),
        include_pagination,
    };
    let next = match list_business_reviews("raw".into(), params) {
        ListStep::CheckId(next, check) => {
            assert_eq!((check.id.as_str(), check.label), ("raw", "business ID"));
            next
        }
        other => panic!("{other:?}"),
    };
    let next = match next.resume(Ok("b1".into())) {
        ListStep::FindWindow(next, request) => {
            assert_eq!(request.limit, Some(3));
            assert_eq!(request.offset, None);
            assert_eq!(request.cursor.as_deref(), Some("c"));
            assert_eq!((request.default_limit, request.max_limit), (20, 100));
            next
        }
        other => panic!("{other:?}"),
    };
    let next = match next.resume(Ok(window)) {
        ListStep::Select(next, query) => {
            assert_eq!(
                shown(&query),
                format!(
                    "reviews [SelectAll, Eq(\"business_id\", \"b1\"), Order(\"created_at.desc\"), \
                     Limit({}), Offset({})]",
                    window.limit + 1,
                    window.offset
                )
            );
            next
        }
        other => panic!("{other:?}"),
    };
    let found: Vec<Value> =
        (0..rows).map(|i| Value::Number(Number::PosInt(i as u64))).collect();
    let next = match next.resume(Ok(found)) {
        ListStep::DescribePage(next, request) => {
            assert_eq!(request.found, rows);
            assert_eq!(request.window.limit, window.limit);
            assert_eq!(request.window.offset, window.offset);
            next
        }
        other => panic!("{other:?}"),
    };
    let page = PageMeta {
        meta: row(&[("limit", "2")]),
        has_more: true,
        next_cursor: Value::text("next"),
        headers: page_headers(),
    };
    match next.resume(page) {
        ListStep::Done(Ok(response)) => {
            assert_eq!(response.status, 200);
            assert_eq!(response.headers, page_headers());
            response.body
        }
        other => panic!("{other:?}"),
    }
}

fn length(items: &Value) -> usize {
    match items {
        Value::Array(items) => items.len(),
        other => panic!("{other:?}"),
    }
}

#[test]
fn a_page_has_no_more_than_was_asked_for() {
    assert_eq!(length(&list(Window { limit: 2, offset: 4 }, 3, None)), 2);
    assert_eq!(length(&list(Window { limit: 2, offset: 4 }, 2, Some(false))), 2);
    assert_eq!(length(&list(Window { limit: 2, offset: 0 }, 1, None)), 1);
    assert_eq!(length(&list(Window { limit: 0, offset: 0 }, 1, None)), 0);
    assert_eq!(length(&list(Window { limit: -1, offset: 0 }, 2, None)), 2);
}

#[test]
fn a_page_is_described_where_that_is_asked_for() {
    let body = list(Window { limit: 2, offset: 0 }, 3, Some(true));
    assert_eq!(length(body.get("items").unwrap()), 2);
    assert_eq!(metadata_str(body.get("pagination").unwrap(), "limit"), Some("2"));
    assert!(matches!(body.get("has_more"), Some(Value::Bool(true))));
    assert_eq!(metadata_str(&body, "next_cursor"), Some("next"));
}

#[test]
fn a_list_fails_with_what_fails_first() {
    let start = || {
        let params =
            PaginationParams { limit: None, offset: None, cursor: None, include_pagination: None };
        match list_business_reviews("raw".into(), params) {
            ListStep::CheckId(next, _) => next,
            other => panic!("{other:?}"),
        }
    };
    match start().resume(Err(AppError::BadRequest("bad id".into()))) {
        ListStep::Done(Err(AppError::BadRequest(m))) => assert_eq!(m, "bad id"),
        other => panic!("{other:?}"),
    }
    let window = || match start().resume(Ok("b1".into())) {
        ListStep::FindWindow(next, _) => next,
        other => panic!("{other:?}"),
    };
    match window().resume(Err(AppError::BadRequest("bad cursor".into()))) {
        ListStep::Done(Err(AppError::BadRequest(m))) => assert_eq!(m, "bad cursor"),
        other => panic!("{other:?}"),
    }
    let next = match window().resume(Ok(Window { limit: 20, offset: 0 })) {
        ListStep::Select(next, _) => next,
        other => panic!("{other:?}"),
    };
    match next.resume(Err(anyhow::Error::msg("down"))) {
        ListStep::Done(Err(error)) => assert_eq!(other_error(error), "down"),
        other => panic!("{other:?}"),
    }
}
