//! What the single steps around reviews and ratings do, member by member.

use crate::backend::{Param, ParamView, Query, RateCheck, RpcCall};
use crate::clock::{rfc3339_text, Timestamp};
use crate::errors::{prints, AppError, Failure};
use crate::headers::header_lines;
use crate::models::AuthUser;
use crate::names::lemma_names;
use crate::rating::lemma_between_one_and_five;
use crate::review_change::{
    delete_review, update_review, DeleteFound, DeleteRefresh, DeleteSave, DeleteStep, ReviewUpdate,
    UpdateBusiness, UpdateComment, UpdateDraft, UpdateFound, UpdateRate, UpdateRefresh, UpdateSave,
    UpdateStep,
};
use crate::review_laws::{law_review_change, law_review_creation, ReviewChange, ReviewCreation};
use crate::review_list::{
    list_business_reviews, page_of, ListId, ListPage, ListRows, ListStep, ListWindow, PageMeta,
    PaginationParams, Window,
};
use crate::review_rating::{
    rating_in, ratings_in, refresh_business_review_summary, review_ratings, update_business_rating,
    update_business_rating_fallback, RatingAverage, RatingClock, RatingId, RatingRefresh,
    RatingRows, RatingSave, RatingStep,
};
use crate::review_write::{
    create_review, find_review, CreateBusiness, CreateClock, CreateDraft, CreateExisting, CreateId,
    CreateInsert, CreateRate, CreateRefresh, CreateStep, FindId, FindRow, FindStep,
    ReviewCreate,
};
use crate::reviews::{
    duplicate_review, ensure_not_owned_business_review, ensure_review_rate_allowed,
    ensure_review_update_rate_allowed, insert_failure_of, map_review_insert_error,
    review_rate_allowed, review_summary_rpc_unavailable, review_update_rate_allowed,
};
use crate::text::{ascii_lowered, occurs};
use crate::value::{Json, Number, Value};
use vstd::prelude::*;

verus! {

/// A query asks for rows of a table by conditions, which stand in this order.
pub open spec fn asks(query: Query, table: Seq<char>, params: Seq<ParamView>) -> bool {
    &&& query.table@ == table
    &&& query.params@.len() == params.len()
    &&& forall|i: int|
        0 <= i < params.len() ==> (#[trigger] query.params@[i])@ == params[i]
}

/// A query asks for what it says.
proof fn lemma_asks(query: Query, table: Seq<char>, params: Seq<ParamView>)
    requires
        query@.table == table,
        query@.params == params,
    ensures
        asks(query, table, params),
{
    assert forall|i: int| 0 <= i < params.len() implies (#[trigger] query.params@[i])@
        == params[i] by {
        assert(query@.params[i] == query.params@[i]@);
    }
}

/// What a query is made of stands in it in that order.
pub proof fn law_query_made(
    table: &'static str,
    first: Param,
    second: Param,
    one: Query,
    two: Query,
)
    requires
        call_ensures(Query::new, (table, first), one),
        call_ensures(Query::and, (one, second), two),
    ensures
        asks(one, table@, seq![first@]),
        asks(two, table@, seq![first@, second@]),
{
    lemma_asks(one, table@, seq![first@]);
    assert(seq![first@].push(second@) =~= seq![first@, second@]);
    lemma_asks(two, table@, seq![first@, second@]);
}

/// The rating is one that may be given: a double from 1 to 5, by its bit pattern.
pub open spec fn is_rating(bits: u64) -> bool {
    0x3ff0_0000_0000_0000 <= bits <= 0x4014_0000_0000_0000
}

/// A message says that the function which refreshes the summary is missing, whatever its case.
pub open spec fn says_missing(message: Seq<char>) -> bool {
    let lowered = ascii_lowered(message);
    let named = occurs(lowered, "refresh_business_review_summary"@);
    (named && occurs(lowered, "does not exist"@)) || occurs(
        lowered,
        "could not find the function"@,
    ) || occurs(lowered, "schema cache"@)
}

/// A message says that a row is there already, whatever its case.
pub open spec fn says_duplicate(message: Seq<char>) -> bool {
    occurs(ascii_lowered(message), "duplicate"@) || occurs(ascii_lowered(message), "unique"@)
}

/// Messages of the database are read by the words in them.
pub proof fn law_database_messages(message: &str, missing: bool, duplicate: bool)
    requires
        call_ensures(review_summary_rpc_unavailable, (message,), missing),
        call_ensures(duplicate_review, (message,), duplicate),
    ensures
        missing == says_missing(message@),
        duplicate == says_duplicate(message@),
{
}

/// A failed insert is a conflict just when what it prints says that the row is there already; any
/// other error is passed on as it is.
pub open spec fn is_insert_failure(error: anyhow::Error, failure: Failure) -> bool {
    exists|message: Seq<char>|
        {
            &&& #[trigger] prints(error, message)
            &&& says_duplicate(message) ==> failure == Failure::Conflict(
                "You have already reviewed this business"@,
            )
            &&& !says_duplicate(message) ==> failure == Failure::Other(error)
        }
}

/// A failed insert is read by what it prints.
proof fn lemma_insert_failure(error: anyhow::Error, failure: Failure)
    requires
        insert_failure_of(error, failure),
    ensures
        is_insert_failure(error, failure),
{
    let message = choose|message: Seq<char>|
        #[trigger] prints(error, message) && failure == if crate::reviews::is_duplicate(message) {
            Failure::Conflict("You have already reviewed this business"@)
        } else {
            Failure::Other(error)
        };
    assert(prints(error, message));
}

/// A failed insert is a conflict or is passed on, by what it prints.
pub proof fn law_insert_error(error: anyhow::Error, failure: AppError)
    requires
        call_ensures(map_review_insert_error, (error,), failure),
    ensures
        is_insert_failure(error, failure@),
{
    lemma_insert_failure(error, failure@);
}

/// A row belongs to somebody: it has that text under the key, or none and the text is empty.
pub open spec fn names(row: Json, key: Seq<char>, text: Seq<char>) -> bool {
    &&& row.get(key) matches Some(Json::String(there)) ==> there == text
    &&& !(row.get(key) matches Some(Json::String(_))) ==> text.len() == 0
}

/// The owner of a business does not review it, and anybody else may.
pub proof fn law_not_owned(business: Value, user: AuthUser, result: Result<(), AppError>)
    requires
        call_ensures(ensure_not_owned_business_review, (&business, &user), result),
    ensures
        result is Err <==> names(business@, "owner_id"@, user.id@),
        result matches Err(error) ==> error@ == Failure::Forbidden(
            "Business owners cannot review their own listing"@,
        ),
{
    assert(user.id@.len() == 0 ==> user.id@ =~= Seq::empty());
}

/// The reviews of the last hour are counted, of one user, and eight of them are too many for
/// another.
pub proof fn law_review_rate(
    now: Timestamp,
    user_id: &str,
    query: Query,
    recent: Result<i64, anyhow::Error>,
    result: Result<(), AppError>,
)
    requires
        call_ensures(ensure_review_rate_allowed, (now, user_id), query),
        call_ensures(review_rate_allowed, (recent,), result),
    ensures
        asks(
            query,
            "reviews"@,
            seq![
                ParamView::Eq("user_id"@, user_id@),
                ParamView::Gte(
                    "created_at"@,
                    rfc3339_text((now.secs() - 3600) as i64, now.nanos()),
                ),
            ],
        ),
        recent matches Ok(count) ==> (result is Ok <==> count < 8),
        (recent is Ok && result is Err) ==> result->Err_0 == AppError::RateLimited,
        recent matches Err(cause) ==> result == Err::<(), AppError>(AppError::Other(cause)),
{
    lemma_asks(query, query@.table, query@.params);
}

/// Changes of a review are counted by user and review: eight of them in an hour.
pub proof fn law_review_update_rate(
    user_id: &str,
    review_id: &str,
    check: RateCheck,
    allowed: bool,
    result: Result<(), AppError>,
)
    requires
        call_ensures(ensure_review_update_rate_allowed, (user_id, review_id), check),
        call_ensures(review_update_rate_allowed, (allowed,), result),
    ensures
        check.key@ == "review-update:"@ + user_id@ + ":"@ + review_id@,
        check.limit == 8,
        check.window_secs == 3600,
        result is Ok <==> allowed,
        !allowed ==> result == Err::<(), AppError>(AppError::RateLimited),
{
}

/// A row that has to be there and is not, or could not be looked for.
pub open spec fn is_missing(
    row: Result<Option<Value>, anyhow::Error>,
    message: Seq<char>,
    error: AppError,
) -> bool {
    &&& row is Ok ==> error@ == Failure::NotFound(message)
    &&& row matches Err(cause) ==> error == AppError::Other(cause)
}

/// A review is looked for by its checked id, and has to be there.
pub proof fn law_find_review(
    id: String,
    first: FindStep,
    checked: Result<String, AppError>,
    second: FindStep,
    row: Result<Option<Value>, anyhow::Error>,
    last: FindStep,
)
    requires
        call_ensures(find_review, (id,), first),
        call_ensures(FindId::resume, (first->CheckId_0, checked), second),
        checked is Ok ==> call_ensures(FindRow::resume, (second->SelectOne_0, row), last),
    ensures
        first matches FindStep::CheckId(_, check) && check.id@ == id@ && check.label@
            == "review ID"@,
        checked matches Err(error) ==> second == FindStep::Done(Err(error)),
        checked matches Ok(id) ==> {
            &&& second matches FindStep::SelectOne(_, query)
            &&& asks(query, "reviews"@, seq![ParamView::SelectAll, ParamView::Eq("id"@, id@)])
            &&& row matches Ok(Some(found)) ==> last == FindStep::Done(Ok(found))
            &&& !(row matches Ok(Some(_))) ==> {
                &&& last matches FindStep::Done(Err(error))
                &&& is_missing(row, "Review not found"@, error)
            }
        },
{
    if checked is Ok {
        let query = second->SelectOne_1;
        lemma_asks(query, query@.table, query@.params);
    }
}

/// A review is begun just with a rating, whose business is checked next.
pub proof fn law_create_review(payload: ReviewCreate, user: AuthUser, step: CreateStep)
    requires
        call_ensures(create_review, (payload, user), step),
    ensures
        is_rating(payload.rating) ==> {
            &&& step matches CreateStep::CheckId(next, check)
            &&& check.id@ == payload.business_id@
            &&& check.label@ == "business ID"@
            &&& next.rating == payload.rating
            &&& next.comment == payload.comment
            &&& next.user == user
        },
        !is_rating(payload.rating) ==> {
            &&& step matches CreateStep::Done(Err(error))
            &&& error@ == Failure::BadRequest("Rating must be between 1 and 5"@)
        },
{
    lemma_between_one_and_five(payload.rating);
}

/// The checked id is the one of the business that is looked up and reviewed.
pub proof fn law_create_id(state: CreateId, id: Result<String, AppError>, step: CreateStep)
    requires
        call_ensures(CreateId::resume, (state, id), step),
    ensures
        id matches Ok(id) ==> {
            &&& step matches CreateStep::SelectBusiness(next, query)
            &&& asks(query, "businesses"@, seq![ParamView::SelectAll, ParamView::Eq("id"@, id@)])
            &&& next.draft.business_id@ == id@
            &&& next.draft.rating == state.rating
            &&& next.draft.comment == state.comment
            &&& next.draft.user == state.user
        },
        id matches Err(error) ==> step == CreateStep::Done(Err(error)),
{
    if id is Ok {
        let query = step->SelectBusiness_1;
        lemma_asks(query, query@.table, query@.params);
    }
}

/// A business of somebody else is followed by the search for an earlier review of the same user.
pub proof fn law_create_business(
    state: CreateBusiness,
    business: Result<Option<Value>, anyhow::Error>,
    step: CreateStep,
)
    requires
        call_ensures(CreateBusiness::resume, (state, business), step),
    ensures
        business matches Ok(Some(business)) ==> {
            let owned = names(business@, "owner_id"@, state.draft.user.id@);
            &&& owned ==> {
                &&& step matches CreateStep::Done(Err(error))
                &&& error@ == Failure::Forbidden("Business owners cannot review their own listing"@)
            }
            &&& !owned ==> {
                &&& step matches CreateStep::SelectExisting(next, query)
                &&& next.draft == state.draft
                &&& asks(
                    query,
                    "reviews"@,
                    seq![
                        ParamView::SelectAll,
                        ParamView::Eq("business_id"@, state.draft.business_id@),
                        ParamView::Eq("user_id"@, state.draft.user.id@),
                    ],
                )
            }
        },
        !(business matches Ok(Some(_))) ==> {
            &&& step matches CreateStep::Done(Err(error))
            &&& is_missing(business, "Business not found"@, error)
        },
{
    let user_id = state.draft.user.id@;
    assert(user_id.len() == 0 ==> user_id =~= Seq::empty());
    if let CreateStep::SelectExisting(_, query) = step {
        lemma_asks(query, query@.table, query@.params);
    }
}

/// An earlier review is a conflict, and without one the time is told and the reviews of the hour
/// before it are counted; fewer than eight let the comment be cleaned.
pub proof fn law_create_rate(
    state: CreateExisting,
    existing: Result<Option<Value>, anyhow::Error>,
    first: CreateStep,
    now: Timestamp,
    second: CreateStep,
    recent: Result<i64, anyhow::Error>,
    last: CreateStep,
)
    requires
        call_ensures(CreateExisting::resume, (state, existing), first),
        (existing matches Ok(None)) ==> {
            &&& call_ensures(CreateClock::resume, (first->ReadClock_0, now), second)
            &&& call_ensures(CreateRate::resume, (second->CountRecent_0, recent), last)
        },
    ensures
        (existing matches Ok(Some(_))) ==> {
            &&& first matches CreateStep::Done(Err(error))
            &&& error@ == Failure::Conflict("You have already reviewed this business"@)
        },
        existing matches Err(cause) ==> first == CreateStep::Done(Err(AppError::Other(cause))),
        (existing matches Ok(None)) ==> {
            &&& first is ReadClock
            &&& second matches CreateStep::CountRecent(_, query)
            &&& asks(
                query,
                "reviews"@,
                seq![
                    ParamView::Eq("user_id"@, state.draft.user.id@),
                    ParamView::Gte(
                        "created_at"@,
                        rfc3339_text((now.secs() - 3600) as i64, now.nanos()),
                    ),
                ],
            )
            &&& recent matches Ok(count) ==> {
                &&& count >= 8 ==> last == CreateStep::Done(Err(AppError::RateLimited))
                &&& count < 8 ==> {
                    &&& last matches CreateStep::Compose(next, request)
                    &&& next.business_id@ == state.draft.business_id@
                    &&& next.rating == state.draft.rating
                    &&& next.user == state.draft.user
                    &&& request.text == state.draft.comment
                    &&& request.limit == 2000
                }
            }
            &&& recent matches Err(cause) ==> last == CreateStep::Done(
                Err(AppError::Other(cause)),
            )
        },
{
    if existing matches Ok(None) {
        let query = second->CountRecent_1;
        lemma_asks(query, query@.table, query@.params);
    }
}

/// The keys of the row of a new review.
pub open spec fn is_review_key(key: Seq<char>) -> bool {
    ||| key == "business_id"@
    ||| key == "user_id"@
    ||| key == "user_name"@
    ||| key == "rating"@
    ||| key == "comment"@
    ||| key == "is_verified"@
    ||| key == "credibility_weight"@
    ||| key == "helpful_count"@
    ||| key == "created_at"@
    ||| key == "updated_at"@
}

/// The row that is inserted has the comment just as it was cleaned, of whatever length, the empty
/// text where there is none, and the rating, the user, its name, the business and the time under
/// their keys; it is not verified, counts once, has helped nobody yet, and has no other member.
pub proof fn law_new_review(
    draft: CreateDraft,
    now: Timestamp,
    user_name: String,
    comment: Option<String>,
    step: CreateStep,
)
    requires
        call_ensures(CreateDraft::resume, (draft, now, user_name, comment), step),
    ensures
        step matches CreateStep::InsertReview(next, insert) && {
            let row = insert.row@;
            let time = rfc3339_text(now.secs(), now.nanos());
            &&& next.business_id@ == draft.business_id@
            &&& insert.table@ == "reviews"@
            &&& comment matches Some(cleaned) ==> row.text_at("comment"@) == Some(cleaned@)
            &&& comment is None ==> (row.text_at("comment"@) matches Some(text) && text.len()
                == 0)
            &&& row.get("rating"@) == Some(Json::Number(Number::Float(draft.rating)))
            &&& row.text_at("user_id"@) == Some(draft.user.id@)
            &&& row.text_at("user_name"@) == Some(user_name@)
            &&& row.text_at("business_id"@) == Some(draft.business_id@)
            &&& row.text_at("created_at"@) == Some(time)
            &&& row.text_at("updated_at"@) == Some(time)
            &&& row.get("is_verified"@) == Some(Json::Bool(false))
            &&& row.get("credibility_weight"@) == Some(
                Json::Number(Number::Float(0x3ff0_0000_0000_0000)),
            )
            &&& row.get("helpful_count"@) == Some(Json::Number(Number::PosInt(0)))
            &&& forall|key: Seq<char>| !is_review_key(key) ==> #[trigger] row.get(key) is None
        },
{
    lemma_names();
}

/// What a review holds when it is inserted is what was asked for when it was begun.
pub proof fn law_review_written(creation: ReviewCreation, steps: Seq<CreateStep>, at: int)
    requires
        creation.takes(steps),
        0 <= at < steps.len(),
        steps[at] is InsertReview,
    ensures
        ({
            let row = steps[at]->InsertReview_1.row@;
            &&& is_rating(creation.payload.rating)
            &&& row.get("rating"@) == Some(Json::Number(Number::Float(creation.payload.rating)))
            &&& row.text_at("user_id"@) == Some(creation.user.id@)
            &&& creation.outcomes.id matches Ok(id) && row.text_at("business_id"@) == Some(id@)
            &&& creation.outcomes.comment matches Some(comment) ==> row.text_at("comment"@) == Some(
                comment@,
            )
            &&& row.text_at("user_name"@) == Some(creation.outcomes.user_name@)
        }),
{
    law_review_creation(creation, steps, at);
    lemma_between_one_and_five(creation.payload.rating);
    lemma_names();
}

/// A row that was inserted is shown once the rating of its business is up to date.
pub proof fn law_create_end(
    state: CreateInsert,
    created: Result<Value, anyhow::Error>,
    first: CreateStep,
    refreshed: Result<(), AppError>,
    last: CreateStep,
)
    requires
        call_ensures(CreateInsert::resume, (state, created), first),
        created is Ok ==> call_ensures(
            CreateRefresh::resume,
            (first->RefreshRating_0, refreshed),
            last,
        ),
    ensures
        created matches Ok(row) ==> {
            &&& first matches CreateStep::RefreshRating(_, business_id)
            &&& business_id@ == state.business_id@
            &&& refreshed is Ok ==> {
                &&& last matches CreateStep::Done(Ok(written))
                &&& written.status == 201
                &&& written.row == row
            }
            &&& refreshed matches Err(error) ==> last == CreateStep::Done(Err(error))
        },
        created matches Err(error) ==> {
            &&& first matches CreateStep::Done(Err(failure))
            &&& is_insert_failure(error, failure@)
        },
{
    if let Err(error) = created {
        lemma_insert_failure(error, first->Done_0->Err_0@);
    }
}

/// A change looks for the review with the id that was asked for; a review of somebody else ends
/// it, and one's own is followed by its business.
pub proof fn law_update_review(
    id: String,
    payload: ReviewUpdate,
    user: AuthUser,
    first: UpdateStep,
    existing: Result<Value, AppError>,
    second: UpdateStep,
)
    requires
        call_ensures(update_review, (id, payload, user), first),
        call_ensures(UpdateFound::resume, (first->FindReview_0, existing), second),
    ensures
        first matches UpdateStep::FindReview(_, wanted) && wanted@ == id@,
        existing matches Err(error) ==> second == UpdateStep::Done(Err(error)),
        existing matches Ok(review) ==> {
            let own = names(review@, "user_id"@, user.id@);
            &&& !own ==> {
                &&& second matches UpdateStep::Done(Err(error))
                &&& error@ == Failure::Forbidden("Not your review"@)
            }
            &&& own ==> {
                &&& second matches UpdateStep::SelectBusiness(next, query)
                &&& next.id == id && next.payload == payload && next.user == user
                &&& names(review@, "business_id"@, next.business_id@)
                &&& asks(
                    query,
                    "businesses"@,
                    seq![ParamView::SelectAll, ParamView::Eq("id"@, next.business_id@)],
                )
            }
        },
{
    assert(user.id@.len() == 0 ==> user.id@ =~= Seq::empty());
    if let UpdateStep::SelectBusiness(_, query) = second {
        lemma_asks(query, query@.table, query@.params);
    }
}

/// A review of a business of somebody else may be changed, as often as it is allowed.
pub proof fn law_update_business(
    state: UpdateBusiness,
    business: Result<Option<Value>, anyhow::Error>,
    step: UpdateStep,
)
    requires
        call_ensures(UpdateBusiness::resume, (state, business), step),
    ensures
        business matches Ok(Some(business)) ==> {
            let owned = names(business@, "owner_id"@, state.user.id@);
            &&& owned ==> {
                &&& step matches UpdateStep::Done(Err(error))
                &&& error@ == Failure::Forbidden("Business owners cannot review their own listing"@)
            }
            &&& !owned ==> {
                &&& step matches UpdateStep::CheckRate(next, check)
                &&& next.id == state.id && next.payload == state.payload
                &&& next.user == state.user && next.business_id == state.business_id
                &&& check.key@ == "review-update:"@ + state.user.id@ + ":"@ + state.id@
                &&& check.limit == 8
                &&& check.window_secs == 3600
            }
        },
        !(business matches Ok(Some(_))) ==> {
            &&& step matches UpdateStep::Done(Err(error))
            &&& is_missing(business, "Business not found"@, error)
        },
{
    assert(state.user.id@.len() == 0 ==> state.user.id@ =~= Seq::empty());
}

/// An allowed change with a sound rating, or none, goes on with its comment, and without one with
/// the time; what is not asked for is not made up.
pub proof fn law_update_rate(
    state: UpdateRate,
    allowed: bool,
    step: UpdateStep,
)
    requires
        call_ensures(UpdateRate::resume, (state, allowed), step),
    ensures
        ({
            let payload = state.payload;
            let unsound = payload.rating matches Some(rating) && !is_rating(rating);
            &&& !allowed ==> step == UpdateStep::Done(Err(AppError::RateLimited))
            &&& allowed && unsound ==> {
                &&& step matches UpdateStep::Done(Err(error))
                &&& error@ == Failure::BadRequest("Rating must be between 1 and 5"@)
            }
            &&& allowed && !unsound && payload.comment is Some ==> {
                &&& step matches UpdateStep::SanitizeComment(next, request)
                &&& next.id == state.id && next.rating == payload.rating
                &&& next.user == state.user && next.business_id == state.business_id
                &&& request.text == payload.comment
                &&& request.limit == 2000
            }
            &&& allowed && !unsound && payload.comment is None ==> {
                &&& step matches UpdateStep::ReadClock(next)
                &&& next.id == state.id && next.rating == payload.rating
                &&& next.user == state.user && next.business_id == state.business_id
                &&& next.comment is None
            }
        }),
{
    if let Some(rating) = state.payload.rating {
        lemma_between_one_and_five(rating);
    }
}

/// A clean comment, of whatever length, is the one that is written.
pub proof fn law_update_comment(state: UpdateComment, cleaned: String, step: UpdateStep)
    requires
        call_ensures(UpdateComment::resume, (state, cleaned), step),
    ensures
        step matches UpdateStep::ReadClock(next) && {
            &&& next.comment == Some(cleaned)
            &&& next.id == state.id && next.rating == state.rating
            &&& next.user == state.user && next.business_id == state.business_id
        },
{
}

/// The members of a change of a review: the time, and the rating and the comment just where they
/// are given, each as it is given.
pub open spec fn changes(
    members: Json,
    time: Seq<char>,
    rating: Option<u64>,
    comment: Option<String>,
) -> bool {
    &&& members.text_at("updated_at"@) == Some(time)
    &&& rating matches Some(rating) ==> members.get("rating"@) == Some(
        Json::Number(Number::Float(rating)),
    )
    &&& rating is None ==> members.get("rating"@) is None
    &&& comment matches Some(comment) ==> members.text_at("comment"@) == Some(comment@)
    &&& comment is None ==> members.get("comment"@) is None
    &&& forall|key: Seq<char>|
        key != "updated_at"@ && key != "rating"@ && key != "comment"@ ==> #[trigger] members.get(
            key,
        ) is None
}

/// A change writes the rating that is asked for, whichever it is, and the comment, into the review
/// of the user who asks; what is not asked for is left out.
pub proof fn law_review_members(draft: UpdateDraft, now: Timestamp, step: UpdateStep)
    requires
        call_ensures(UpdateDraft::resume, (draft, now), step),
    ensures
        step matches UpdateStep::UpdateRows(next, update) && {
            &&& next.business_id == draft.business_id
            &&& asks(
                update.rows,
                "reviews"@,
                seq![ParamView::Eq("id"@, draft.id@), ParamView::Eq("user_id"@, draft.user.id@)],
            )
            &&& changes(
                update.members@,
                rfc3339_text(now.secs(), now.nanos()),
                draft.rating,
                draft.comment,
            )
        },
{
    lemma_names();
    let query = step->UpdateRows_1.rows;
    lemma_asks(query, query@.table, query@.params);
}

/// From beginning to end a change writes the rating that was asked for, and a comment just when one
/// was asked for.
pub proof fn law_review_changed(change: ReviewChange, steps: Seq<UpdateStep>, at: int)
    requires
        change.takes(steps),
        0 <= at < steps.len(),
        steps[at] is UpdateRows,
    ensures
        ({
            let members = steps[at]->UpdateRows_1.members@;
            &&& change.payload.rating matches Some(rating) ==> is_rating(rating) && members.get(
                "rating"@,
            ) == Some(Json::Number(Number::Float(rating)))
            &&& change.payload.rating is None ==> members.get("rating"@) is None
            &&& change.payload.comment is Some ==> members.text_at("comment"@) == Some(
                change.outcomes.comment@,
            )
            &&& change.payload.comment is None ==> members.get("comment"@) is None
        }),
{
    law_review_change(change, steps, at);
    lemma_names();
    if let Some(rating) = change.payload.rating {
        lemma_between_one_and_five(rating);
    }
}

/// The first of the changed rows is shown once the rating of its business is up to date; where no
/// row was changed, the review is not there.
pub proof fn law_update_end(
    state: UpdateSave,
    updated: Result<Vec<Value>, anyhow::Error>,
    first: UpdateStep,
    refreshed: Result<(), AppError>,
    last: UpdateStep,
)
    requires
        call_ensures(UpdateSave::resume, (state, updated), first),
        (updated matches Ok(rows) && rows@.len() > 0) ==> call_ensures(
            UpdateRefresh::resume,
            (first->RefreshRating_0, refreshed),
            last,
        ),
    ensures
        updated matches Ok(rows) ==> {
            &&& rows@.len() == 0 ==> {
                &&& first matches UpdateStep::Done(Err(error))
                &&& error@ == Failure::NotFound("Review not found"@)
            }
            &&& rows@.len() > 0 ==> {
                &&& first matches UpdateStep::RefreshRating(_, business_id)
                &&& business_id@ == state.business_id@
                &&& refreshed is Ok ==> last == UpdateStep::Done(Ok(rows@[0]))
                &&& refreshed matches Err(error) ==> last == UpdateStep::Done(Err(error))
            }
        },
        updated matches Err(cause) ==> first == UpdateStep::Done(Err(AppError::Other(cause))),
{
}

/// A review is deleted by the id that was asked for, by who wrote it or an administrator, and the
/// rating of its business is brought up to date.
pub proof fn law_delete_review(
    id: String,
    user: AuthUser,
    first: DeleteStep,
    existing: Result<Value, AppError>,
    second: DeleteStep,
)
    requires
        call_ensures(delete_review, (id, user), first),
        call_ensures(DeleteFound::resume, (first->FindReview_0, existing), second),
    ensures
        first matches DeleteStep::FindReview(_, wanted) && wanted@ == id@,
        existing matches Err(error) ==> second == DeleteStep::Done(Err(error)),
        existing matches Ok(review) ==> {
            let allowed = names(review@, "user_id"@, user.id@) || user.role@ == "admin"@;
            &&& !allowed ==> {
                &&& second matches DeleteStep::Done(Err(error))
                &&& error@ == Failure::Forbidden("Not your review"@)
            }
            &&& allowed ==> {
                &&& second matches DeleteStep::DeleteRows(next, query)
                &&& names(review@, "business_id"@, next.business_id@)
                &&& asks(query, "reviews"@, seq![ParamView::Eq("id"@, id@)])
            }
        },
{
    assert(user.id@.len() == 0 ==> user.id@ =~= Seq::empty());
    if let DeleteStep::DeleteRows(_, query) = second {
        lemma_asks(query, query@.table, query@.params);
    }
}

/// A deletion ends with a message once the rating of the business is up to date.
pub proof fn law_delete_end(
    state: DeleteSave,
    deleted: Result<(), anyhow::Error>,
    first: DeleteStep,
    refreshed: Result<(), AppError>,
    last: DeleteStep,
)
    requires
        call_ensures(DeleteSave::resume, (state, deleted), first),
        deleted is Ok ==> call_ensures(
            DeleteRefresh::resume,
            (first->RefreshRating_0, refreshed),
            last,
        ),
    ensures
        deleted matches Err(cause) ==> first == DeleteStep::Done(Err(AppError::Other(cause))),
        deleted is Ok ==> {
            &&& first matches DeleteStep::RefreshRating(_, business_id)
            &&& business_id@ == state.business_id@
            &&& refreshed is Ok ==> {
                &&& last matches DeleteStep::Done(Ok(body))
                &&& body@.get("message"@) == Some(Json::String("Review deleted"@))
                &&& forall|key: Seq<char>| key != "message"@ ==> #[trigger] body@.get(key) is None
            }
            &&& refreshed matches Err(error) ==> last == DeleteStep::Done(Err(error))
        },
{
}

/// A row has a number for its rating.
pub open spec fn is_rated(row: Value) -> bool {
    row@.get("rating"@) matches Some(Json::Number(_))
}

/// The number that a row has for its rating.
pub open spec fn number_of(row: Value) -> Number {
    row@.get("rating"@)->0->Number_0
}

/// The ratings in a list of rows are those of the rows that have one.
proof fn lemma_ratings(rows: Seq<Value>)
    ensures
        ratings_in(rows) == rows.filter(|row: Value| is_rated(row)).map_values(
            |row: Value| number_of(row),
        ),
    decreases rows.len(),
{
    let rated = |row: Value| is_rated(row);
    let number = |row: Value| number_of(row);
    reveal(Seq::filter);
    if rows.len() > 0 {
        let front = rows.drop_last();
        lemma_ratings(front);
        let kept = front.filter(rated);
        assert(rating_in(rows.last()@) is Some <==> is_rated(rows.last()));
        if is_rated(rows.last()) {
            assert(kept.push(rows.last()).map_values(number) =~= kept.map_values(number).push(
                number(rows.last()),
            ));
        }
    } else {
        assert(rows.filter(rated).map_values(number) =~= Seq::empty());
    }
}

/// A list whose items all pass is not made shorter by sifting it.
proof fn lemma_all_kept(rows: Seq<Value>)
    requires
        forall|i: int| 0 <= i < rows.len() ==> is_rated(#[trigger] rows[i]),
    ensures
        rows.filter(|row: Value| is_rated(row)) == rows,
    decreases rows.len(),
{
    let rated = |row: Value| is_rated(row);
    reveal(Seq::filter);
    if rows.len() > 0 {
        let front = rows.drop_last();
        assert forall|i: int| 0 <= i < front.len() implies is_rated(#[trigger] front[i]) by {
            assert(front[i] == rows[i]);
        }
        lemma_all_kept(front);
        assert(is_rated(rows[rows.len() - 1]));
        assert(front.push(rows.last()) =~= rows);
    } else {
        assert(rows.filter(rated) =~= rows);
    }
}

/// The ratings that are added up are one for each row that has a number for it, in their order and
/// the same ones as often as they occur; where every row has one, there are as many as rows.
pub proof fn law_review_ratings(rows: Vec<Value>, ratings: Vec<Number>)
    requires
        call_ensures(review_ratings, (&rows,), ratings),
    ensures
        ratings@ == rows@.filter(|row: Value| is_rated(row)).map_values(
            |row: Value| number_of(row),
        ),
        (forall|i: int| 0 <= i < rows@.len() ==> is_rated(#[trigger] rows@[i])) ==> {
            &&& ratings@.len() == rows@.len()
            &&& forall|i: int|
                0 <= i < rows@.len() ==> #[trigger] ratings@[i] == number_of(rows@[i])
        },
{
    lemma_ratings(rows@);
    if forall|i: int| 0 <= i < rows@.len() ==> is_rated(#[trigger] rows@[i]) {
        lemma_all_kept(rows@);
    }
}

/// A call has the database bring up to date the rating of one business.
pub open spec fn refreshes(call: RpcCall, business_id: Seq<char>) -> bool {
    &&& call.function@ == "refresh_business_review_summary"@
    &&& call.arguments@.get("p_business_id"@) == Some(Json::String(business_id))
    &&& forall|key: Seq<char>|
        key != "p_business_id"@ ==> #[trigger] call.arguments@.get(key) is None
}

/// The rating of a business is brought up to date by the database first, by its checked id.
pub proof fn law_refresh_rating(
    business_id: String,
    first: RatingStep,
    checked: Result<String, AppError>,
    second: RatingStep,
    id: &str,
    call: RpcCall,
)
    requires
        call_ensures(update_business_rating, (business_id,), first),
        call_ensures(RatingId::resume, (first->CheckId_0, checked), second),
        call_ensures(refresh_business_review_summary, (id,), call),
    ensures
        first matches RatingStep::CheckId(_, check) && check.id@ == business_id@ && check.label@
            == "business ID"@,
        checked matches Ok(id) ==> {
            &&& second matches RatingStep::Refresh(next, call)
            &&& next.business_id@ == id@
            &&& refreshes(call, id@)
        },
        checked matches Err(error) ==> second == RatingStep::Done(Err(error)),
        refreshes(call, id@),
{
}

/// The ratings of the reviews of a business are selected.
pub open spec fn selects_ratings(step: RatingStep, business_id: Seq<char>) -> bool {
    &&& step matches RatingStep::SelectRatings(next, query)
    &&& next.business_id@ == business_id
    &&& asks(
        query,
        "reviews"@,
        seq![ParamView::Select("rating"@), ParamView::Eq("business_id"@, business_id)],
    )
}

/// What the database gives back ends it, with success just when there is something; its failure
/// does too, unless what it prints says that the function is missing.
pub proof fn law_refreshed(
    state: RatingRefresh,
    items: Result<Vec<Value>, anyhow::Error>,
    step: RatingStep,
)
    requires
        call_ensures(RatingRefresh::resume, (state, items), step),
    ensures
        items matches Ok(items) ==> {
            &&& items@.len() > 0 ==> step == RatingStep::Done(Ok(()))
            &&& items@.len() == 0 ==> {
                &&& step matches RatingStep::Done(Err(error))
                &&& error@ == Failure::Untyped("Business not found"@)
            }
        },
        items matches Err(cause) ==> exists|message: Seq<char>|
            {
                &&& #[trigger] prints(cause, message)
                &&& says_missing(message) ==> selects_ratings(step, state.business_id@)
                &&& !says_missing(message) ==> step == RatingStep::Done(
                    Err(AppError::Other(cause)),
                )
            },
{
    if let Err(cause) = items {
        let message = choose|message: Seq<char>|
            #[trigger] prints(cause, message) && crate::review_rating::refresh_failed(
                state.business_id@,
                AppError::Other(cause),
                message,
                step,
            );
        assert(prints(cause, message));
        if let RatingStep::SelectRatings(_, query) = step {
            lemma_asks(query, query@.table, query@.params);
        }
    }
}

/// The ratings are selected of the business that is meant.
pub proof fn law_fallback(business_id: String, step: RatingStep)
    requires
        call_ensures(update_business_rating_fallback, (business_id,), step),
    ensures
        selects_ratings(step, business_id@),
{
    let query = step->SelectRatings_1;
    lemma_asks(query, query@.table, query@.params);
}

/// The average is taken of the ratings there are over the number of all rows; without rows there
/// is none.
pub proof fn law_rating_rows(
    state: RatingRows,
    rows: Result<Vec<Value>, anyhow::Error>,
    step: RatingStep,
)
    requires
        call_ensures(RatingRows::resume, (state, rows), step),
    ensures
        rows matches Ok(rows) ==> {
            &&& rows@.len() == 0 ==> {
                &&& step matches RatingStep::ReadClock(next)
                &&& next.business_id@ == state.business_id@
                &&& next.rating@ == Json::Null
                &&& next.count == 0
            }
            &&& rows@.len() > 0 ==> {
                &&& step matches RatingStep::Average(next, request)
                &&& next.business_id@ == state.business_id@
                &&& next.count == rows@.len()
                &&& request.count == rows@.len()
                &&& request.ratings@ == rows@.filter(|row: Value| is_rated(row)).map_values(
                    |row: Value| number_of(row),
                )
            }
        },
        rows matches Err(cause) ==> step == RatingStep::Done(Err(AppError::Other(cause))),
{
    if let Ok(rows) = rows {
        lemma_ratings(rows@);
    }
}

/// The summary that is written into a business is its rating, the number of its reviews and the
/// time.
pub proof fn law_summary(
    state: RatingAverage,
    average: u64,
    first: RatingStep,
    now: Timestamp,
    second: RatingStep,
    updated: Result<(), anyhow::Error>,
    last: RatingStep,
    key: Seq<char>,
)
    requires
        call_ensures(RatingAverage::resume, (state, average), first),
        call_ensures(RatingClock::resume, (first->ReadClock_0, now), second),
        call_ensures(RatingSave::resume, (second->UpdateBusiness_0, updated), last),
    ensures
        second matches RatingStep::UpdateBusiness(_, update) && {
            let members = update.members@;
            &&& asks(update.rows, "businesses"@, seq![ParamView::Eq("id"@, state.business_id@)])
            &&& average % 0x8000_0000_0000_0000 < 0x7ff0_0000_0000_0000 ==> members.get("rating"@)
                == Some(Json::Number(Number::Float(average)))
            &&& average % 0x8000_0000_0000_0000 >= 0x7ff0_0000_0000_0000 ==> members.get("rating"@)
                == Some(Json::Null)
            &&& members.get("review_count"@) == Some(Json::Number(Number::PosInt(state.count)))
            &&& members.text_at("updated_at"@) == Some(rfc3339_text(now.secs(), now.nanos()))
            &&& key != "rating"@ && key != "review_count"@ && key != "updated_at"@ ==> members.get(
                key,
            ) is None
        },
        updated is Ok ==> last == RatingStep::Done(Ok(())),
        updated matches Err(cause) ==> last == RatingStep::Done(Err(AppError::Other(cause))),
{
    lemma_names();
    assert((average / 0x10_0000_0000_0000) % 0x800 != 0x7ff <==> average % 0x8000_0000_0000_0000
        < 0x7ff0_0000_0000_0000) by (bit_vector);
    let query = second->UpdateBusiness_1.rows;
    lemma_asks(query, query@.table, query@.params);
}

/// A rating that is being written keeps what it is: the summary has it, and the number of reviews,
/// as they are.
pub proof fn law_summary_of_any(state: RatingClock, now: Timestamp, step: RatingStep)
    requires
        call_ensures(RatingClock::resume, (state, now), step),
    ensures
        step matches RatingStep::UpdateBusiness(_, update) && {
            &&& update.members@.get("rating"@) == Some(state.rating@)
            &&& update.members@.get("review_count"@) == Some(
                Json::Number(Number::PosInt(state.count)),
            )
            &&& asks(update.rows, "businesses"@, seq![ParamView::Eq("id"@, state.business_id@)])
        },
{
    lemma_names();
    let query = step->UpdateBusiness_1.rows;
    lemma_asks(query, query@.table, query@.params);
}

/// A page is the first of what was found: as many as it may have, or all where there are fewer.
pub open spec fn is_page(items: Seq<Json>, found: Seq<Value>, limit: i64) -> bool {
    &&& 0 <= limit < found.len() ==> items.len() == limit
    &&& limit < 0 || limit >= found.len() ==> items.len() == found.len()
    &&& forall|i: int| 0 <= i < items.len() ==> #[trigger] items[i] == found[i]@
}

/// A list of reviews is asked for by the checked id of the business and the part that is meant.
pub proof fn law_list_window(
    business_id: String,
    params: PaginationParams,
    first: ListStep,
    checked: Result<String, AppError>,
    second: ListStep,
)
    requires
        call_ensures(list_business_reviews, (business_id, params), first),
        call_ensures(ListId::resume, (first->CheckId_0, checked), second),
    ensures
        first matches ListStep::CheckId(_, check) && check.id@ == business_id@ && check.label@
            == "business ID"@,
        checked matches Ok(id) ==> {
            &&& second matches ListStep::FindWindow(next, request)
            &&& next.business_id@ == id@
            &&& next.include_pagination <==> params.include_pagination == Some(true)
            &&& request.limit == params.limit
            &&& request.offset == params.offset
            &&& request.cursor == params.cursor
            &&& request.default_limit == 20
            &&& request.max_limit == 100
        },
        checked matches Err(error) ==> second == ListStep::Done(Err(error)),
{
}

/// The reviews of the business are selected, the latest first, one more than the page has, after
/// those that are left out; how many were found is counted before the page is cut.
pub proof fn law_list_rows(
    state: ListWindow,
    window: Result<Window, AppError>,
    first: ListStep,
    reviews: Result<Vec<Value>, anyhow::Error>,
    second: ListStep,
)
    requires
        window matches Ok(window) ==> window.limit < i64::MAX,
        call_ensures(ListWindow::resume, (state, window), first),
        window is Ok ==> call_ensures(ListRows::resume, (first->Select_0, reviews), second),
    ensures
        window matches Err(error) ==> first == ListStep::Done(Err(error)),
        window matches Ok(window) ==> {
            &&& first matches ListStep::Select(_, query)
            &&& asks(
                query,
                "reviews"@,
                seq![
                    ParamView::SelectAll,
                    ParamView::Eq("business_id"@, state.business_id@),
                    ParamView::Order("created_at.desc"@),
                    ParamView::Limit((window.limit + 1) as i64),
                    ParamView::Offset(window.offset),
                ],
            )
            &&& reviews matches Ok(found) ==> {
                &&& second matches ListStep::DescribePage(next, request)
                &&& next.reviews@ == found@
                &&& next.limit == window.limit
                &&& next.include_pagination == state.include_pagination
                &&& request.window.limit == window.limit
                &&& request.window.offset == window.offset
                &&& request.found == found@.len()
            }
            &&& reviews matches Err(cause) ==> second == ListStep::Done(
                Err(AppError::Other(cause)),
            )
        },
{
    if window is Ok {
        let query = first->Select_1;
        lemma_asks(query, query@.table, query@.params);
    }
}

/// The answer has the headers that describe the page, and the page itself: alone, or among what is
/// told about it where that is asked for.
pub proof fn law_list_answer(state: ListPage, page: PageMeta, step: ListStep)
    requires
        call_ensures(ListPage::resume, (state, page), step),
    ensures
        step matches ListStep::Done(Ok(response)) && {
            let body = response.body@;
            &&& response.status == 200
            &&& header_lines(response.headers) == header_lines(page.headers)
            &&& !state.include_pagination ==> (body matches Json::Array(items) && is_page(
                items,
                state.reviews@,
                state.limit,
            ))
            &&& state.include_pagination ==> {
                &&& body.get("items"@) matches Some(Json::Array(items)) && is_page(
                    items,
                    state.reviews@,
                    state.limit,
                )
                &&& body.get("pagination"@) == Some(page.meta@)
                &&& body.get("has_more"@) == Some(Json::Bool(page.has_more))
                &&& body.get("next_cursor"@) == Some(page.next_cursor@)
                &&& forall|key: Seq<char>|
                    key != "items"@ && key != "pagination"@ && key != "has_more"@ && key
                        != "next_cursor"@ ==> #[trigger] body.get(key) is None
            }
        },
{
    lemma_names();
    let shown = page_of(state.reviews@, state.limit);
    crate::value::lemma_json_list(shown);
    let items = crate::value::json_list(shown);
    assert forall|i: int| 0 <= i < items.len() implies #[trigger] items[i]
        == state.reviews@[i]@ by {
        assert(shown[i] == state.reviews@[i]);
    }
    assert(is_page(items, state.reviews@, state.limit));
}

} // verus!
