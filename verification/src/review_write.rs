//! A review found and written, as sequences of steps.

use crate::backend::{Insert, Param, ParamView, Query, QueryView};
use crate::clock::{rfc3339_text, Timestamp, FIRST_SECOND};
use crate::errors::{AppError, Failure};
use crate::metadata::text_or_empty;
use crate::models::{AuthUser, IdCheck, TextRequest};
use crate::rating::{is_between, validate_rating, ONE};
use crate::reviews::{
    ensure_not_owned_business_review, ensure_review_rate_allowed, insert_failure_of,
    map_review_insert_error, recent_reviews, review_rate_allowed, HOUR,
};
use crate::value::{Json, Number, Object, Value};
use vstd::prelude::*;

verus! {

/// The longest comment that is kept.
pub const COMMENT_LIMIT: usize = 2000;

/// The one row of a table with a given id.
pub open spec fn row_by_id(table: Seq<char>, id: Seq<char>) -> QueryView {
    QueryView { table, params: seq![ParamView::SelectAll, ParamView::Eq("id"@, id)] }
}

pub(crate) fn by_id(table: &'static str, id: String) -> (query: Query)
    ensures
        query@ == row_by_id(table@, id@),
{
    let query = Query::new(table, Param::SelectAll).and(Param::Eq("id", id));
    assert(query@.params =~= row_by_id(table@, id@).params);
    query
}

/// What is to be done next when a review is looked for.
#[derive(Debug)]
pub enum FindStep {
    /// Check that this is an id.
    CheckId(FindId, IdCheck),
    /// Select the one row.
    SelectOne(FindRow, Query),
    /// The outcome.
    Done(Result<Value, AppError>),
}

/// A search for a review whose id is being checked.
#[derive(Debug)]
pub struct FindId;

/// A search for a review whose row is being selected.
#[derive(Debug)]
pub struct FindRow;

/// Begins to look for a review.
pub fn find_review(id: String) -> (step: FindStep)
    ensures
        step matches FindStep::CheckId(next, check) && {
            &&& check.id == id
            &&& check.label@ == "review ID"@
        },
{
    FindStep::CheckId(FindId, IdCheck { id, label: "review ID" })
}

impl FindId {
    /// The step that follows on an outcome.
    pub open spec fn leads_to(self, id: Result<String, AppError>, step: FindStep) -> bool {
        match id {
            Ok(id) => {
                &&& step matches FindStep::SelectOne(next, query)
                &&& query@ == row_by_id("reviews"@, id@)
            },
            Err(error) => step == FindStep::Done(Err(error)),
        }
    }

    /// Goes on with the checked id.
    pub fn resume(self, id: Result<String, AppError>) -> (step: FindStep)
        ensures
            self.leads_to(id, step),
    {
        match id {
            Ok(id) => FindStep::SelectOne(FindRow, by_id("reviews", id)),
            Err(error) => FindStep::Done(Err(error)),
        }
    }
}

/// A row that has to be there: what else comes of it.
pub open spec fn missing_row(
    row: Result<Option<Value>, anyhow::Error>,
    message: Seq<char>,
    error: AppError,
) -> bool {
    match row {
        Ok(_) => error@ == Failure::NotFound(message),
        Err(cause) => error == AppError::Other(cause),
    }
}

pub(crate) fn required_row(
    row: Result<Option<Value>, anyhow::Error>,
    message: &str,
) -> (result: Result<Value, AppError>)
    ensures
        match result {
            Ok(found) => row == Ok::<Option<Value>, anyhow::Error>(Some(found)),
            Err(error) => !(row matches Ok(Some(_))) && missing_row(row, message@, error),
        },
{
    match row {
        Ok(Some(row)) => Ok(row),
        Ok(None) => Err(AppError::NotFound(message.to_owned())),
        Err(error) => Err(AppError::Other(error)),
    }
}

impl FindRow {
    /// The step that follows on an outcome.
    pub open spec fn leads_to(
        self,
        row: Result<Option<Value>, anyhow::Error>,
        step: FindStep,
    ) -> bool {
        match row {
            Ok(Some(row)) => step == FindStep::Done(Ok(row)),
            _ => {
                &&& step matches FindStep::Done(Err(error))
                &&& missing_row(row, "Review not found"@, error)
            },
        }
    }

    /// Ends with the review, which has to be there.
    pub fn resume(self, row: Result<Option<Value>, anyhow::Error>) -> (step: FindStep)
        ensures
            self.leads_to(row, step),
    {
        FindStep::Done(required_row(row, "Review not found"))
    }
}

/// A request to write a review. The rating is the bit pattern of a double.
#[derive(Debug)]
pub struct ReviewCreate {
    pub business_id: String,
    pub rating: u64,
    pub comment: Option<String>,
}

/// A review that was written: the status of the answer, and the row to be shown.
#[derive(Debug)]
pub struct WrittenReview {
    pub status: u16,
    pub row: Value,
}

/// What is to be done next when a review is written.
#[derive(Debug)]
pub enum CreateStep {
    /// Check that this is an id.
    CheckId(CreateId, IdCheck),
    /// Select the business.
    SelectBusiness(CreateBusiness, Query),
    /// Select a review of the same user and business.
    SelectExisting(CreateExisting, Query),
    /// Tell the time.
    ReadClock(CreateClock),
    /// Count the rows.
    CountRecent(CreateRate, Query),
    /// Clean the comment, and tell the time and the name of the user.
    Compose(CreateDraft, TextRequest),
    /// Write the row.
    InsertReview(CreateInsert, Insert),
    /// Bring the rating of the business with this id up to date.
    RefreshRating(CreateRefresh, String),
    /// The outcome.
    Done(Result<WrittenReview, AppError>),
}

/// A review as far as it is known: the business, the rating, the comment and the user.
#[derive(Debug)]
pub struct Draft {
    pub business_id: String,
    pub rating: u64,
    pub comment: Option<String>,
    pub user: AuthUser,
}

/// A review whose business has its id checked.
#[derive(Debug)]
pub struct CreateId {
    pub rating: u64,
    pub comment: Option<String>,
    pub user: AuthUser,
}

/// A review whose business is being selected.
#[derive(Debug)]
pub struct CreateBusiness {
    pub draft: Draft,
}

/// A review of which an earlier one is being looked for.
#[derive(Debug)]
pub struct CreateExisting {
    pub draft: Draft,
}

/// A review for which the time is being told.
#[derive(Debug)]
pub struct CreateClock {
    pub draft: Draft,
}

/// A review whose user has its recent ones counted.
#[derive(Debug)]
pub struct CreateRate {
    pub draft: Draft,
}

/// A review that is being composed.
#[derive(Debug)]
pub struct CreateDraft {
    pub business_id: String,
    pub rating: u64,
    pub user: AuthUser,
}

/// A review that is being written.
#[derive(Debug)]
pub struct CreateInsert {
    pub business_id: String,
}

/// A review that is written, and for which the rating of its business is being brought up to
/// date.
#[derive(Debug)]
pub struct CreateRefresh {
    pub row: Value,
}

/// The step that writing a review begins with.
pub open spec fn begins(payload: ReviewCreate, user: AuthUser, step: CreateStep) -> bool {
    if is_between(payload.rating, 1, 5) {
        &&& step matches CreateStep::CheckId(next, check)
        &&& next.rating == payload.rating
        &&& next.comment == payload.comment
        &&& next.user == user
        &&& check.id == payload.business_id
        &&& check.label@ == "business ID"@
    } else {
        &&& step matches CreateStep::Done(Err(error))
        &&& error@ == Failure::BadRequest("Rating must be between 1 and 5"@)
    }
}

/// Begins to write a review.
pub fn create_review(payload: ReviewCreate, auth_user: AuthUser) -> (step: CreateStep)
    ensures
        begins(payload, auth_user, step),
{
    match validate_rating(payload.rating) {
        Ok(()) => CreateStep::CheckId(
            CreateId { rating: payload.rating, comment: payload.comment, user: auth_user },
            IdCheck { id: payload.business_id, label: "business ID" },
        ),
        Err(error) => CreateStep::Done(Err(error)),
    }
}

impl CreateId {
    /// The step that follows on an outcome.
    pub open spec fn leads_to(self, id: Result<String, AppError>, step: CreateStep) -> bool {
        match id {
            Ok(id) => {
                &&& step matches CreateStep::SelectBusiness(next, query)
                &&& next.draft == (Draft {
                    business_id: id,
                    rating: self.rating,
                    comment: self.comment,
                    user: self.user,
                })
                &&& query@ == row_by_id("businesses"@, id@)
            },
            Err(error) => step == CreateStep::Done(Err(error)),
        }
    }

    /// Goes on with the checked id.
    pub fn resume(self, id: Result<String, AppError>) -> (step: CreateStep)
        ensures
            self.leads_to(id, step),
    {
        match id {
            Ok(id) => {
                let query = by_id("businesses", id.clone());
                CreateStep::SelectBusiness(
                    CreateBusiness {
                        draft: Draft {
                            business_id: id,
                            rating: self.rating,
                            comment: self.comment,
                            user: self.user,
                        },
                    },
                    query,
                )
            },
            Err(error) => CreateStep::Done(Err(error)),
        }
    }
}

/// A review of a user and a business.
pub open spec fn review_by(business_id: Seq<char>, user_id: Seq<char>) -> QueryView {
    QueryView {
        table: "reviews"@,
        params: seq![
            ParamView::SelectAll,
            ParamView::Eq("business_id"@, business_id),
            ParamView::Eq("user_id"@, user_id),
        ],
    }
}

impl CreateBusiness {
    /// The step that follows on an outcome.
    pub open spec fn leads_to(
        self,
        business: Result<Option<Value>, anyhow::Error>,
        step: CreateStep,
    ) -> bool {
        match business {
            Ok(Some(business)) => if text_or_empty(business@, "owner_id"@)
                == self.draft.user.id@ {
                &&& step matches CreateStep::Done(Err(error))
                &&& error@ == Failure::Forbidden(
                    "Business owners cannot review their own listing"@,
                )
            } else {
                &&& step matches CreateStep::SelectExisting(next, query)
                &&& next.draft == self.draft
                &&& query@ == review_by(self.draft.business_id@, self.draft.user.id@)
            },
            _ => {
                &&& step matches CreateStep::Done(Err(error))
                &&& missing_row(business, "Business not found"@, error)
            },
        }
    }

    /// Goes on with the business, which has to be there and to be someone else's.
    pub fn resume(self, business: Result<Option<Value>, anyhow::Error>) -> (step: CreateStep)
        ensures
            self.leads_to(business, step),
    {
        let business = match required_row(business, "Business not found") {
            Ok(business) => business,
            Err(error) => return CreateStep::Done(Err(error)),
        };
        match ensure_not_owned_business_review(&business, &self.draft.user) {
            Ok(()) => {
                let query = Query::new("reviews", Param::SelectAll).and(
                    Param::Eq("business_id", self.draft.business_id.clone()),
                ).and(Param::Eq("user_id", self.draft.user.id.clone()));
                assert(query@.params =~= review_by(
                    self.draft.business_id@,
                    self.draft.user.id@,
                ).params);
                CreateStep::SelectExisting(CreateExisting { draft: self.draft }, query)
            },
            Err(error) => CreateStep::Done(Err(error)),
        }
    }
}

impl CreateExisting {
    /// The step that follows on an outcome.
    pub open spec fn leads_to(
        self,
        existing: Result<Option<Value>, anyhow::Error>,
        step: CreateStep,
    ) -> bool {
        match existing {
            Ok(None) => step == CreateStep::ReadClock(CreateClock { draft: self.draft }),
            Ok(Some(_)) => {
                &&& step matches CreateStep::Done(Err(error))
                &&& error@ == Failure::Conflict("You have already reviewed this business"@)
            },
            Err(error) => step == CreateStep::Done(Err(AppError::Other(error))),
        }
    }

    /// Goes on when the user has not reviewed the business yet.
    pub fn resume(self, existing: Result<Option<Value>, anyhow::Error>) -> (step: CreateStep)
        ensures
            self.leads_to(existing, step),
    {
        match existing {
            Ok(None) => CreateStep::ReadClock(CreateClock { draft: self.draft }),
            Ok(Some(_)) => CreateStep::Done(
                Err(AppError::Conflict("You have already reviewed this business".to_owned())),
            ),
            Err(error) => CreateStep::Done(Err(AppError::Other(error))),
        }
    }
}

impl CreateClock {
    /// The step that follows on an outcome.
    pub open spec fn leads_to(self, now: Timestamp, step: CreateStep) -> bool {
        step matches CreateStep::CountRecent(next, query) && {
            &&& next.draft == self.draft
            &&& query@ == recent_reviews(now, self.draft.user.id@)
        }
    }

    /// Goes on with the time.
    pub fn resume(self, now: Timestamp) -> (step: CreateStep)
        requires
            FIRST_SECOND <= now.secs() - HOUR,
        ensures
            self.leads_to(now, step),
    {
        let query = ensure_review_rate_allowed(now, self.draft.user.id.as_str());
        CreateStep::CountRecent(CreateRate { draft: self.draft }, query)
    }
}

impl CreateRate {
    /// The step that follows on an outcome.
    pub open spec fn leads_to(self, recent: Result<i64, anyhow::Error>, step: CreateStep) -> bool {
        match recent {
            Ok(count) => if count >= 8 {
                step == CreateStep::Done(Err(AppError::RateLimited))
            } else {
                &&& step matches CreateStep::Compose(next, request)
                &&& next.business_id == self.draft.business_id
                &&& next.rating == self.draft.rating
                &&& next.user == self.draft.user
                &&& request.text == self.draft.comment
                &&& request.limit == COMMENT_LIMIT
            },
            Err(error) => step == CreateStep::Done(Err(AppError::Other(error))),
        }
    }

    /// Goes on when the user has not written too many reviews lately.
    pub fn resume(self, recent: Result<i64, anyhow::Error>) -> (step: CreateStep)
        ensures
            self.leads_to(recent, step),
    {
        match review_rate_allowed(recent) {
            Ok(()) => CreateStep::Compose(
                CreateDraft {
                    business_id: self.draft.business_id,
                    rating: self.draft.rating,
                    user: self.draft.user,
                },
                TextRequest { text: self.draft.comment, limit: COMMENT_LIMIT },
            ),
            Err(error) => CreateStep::Done(Err(error)),
        }
    }
}

/// The row of a new review: nobody has verified it or found it helpful yet, and it counts once.
pub open spec fn review_row(
    business_id: Seq<char>,
    user_id: Seq<char>,
    user_name: Seq<char>,
    rating: u64,
    comment: Seq<char>,
    time: Seq<char>,
) -> Json {
    Json::Object(
        map![
            "business_id"@ => Json::String(business_id),
            "user_id"@ => Json::String(user_id),
            "user_name"@ => Json::String(user_name),
            "rating"@ => Json::Number(Number::Float(rating)),
            "comment"@ => Json::String(comment),
            "is_verified"@ => Json::Bool(false),
            "credibility_weight"@ => Json::Number(Number::Float(ONE)),
            "helpful_count"@ => Json::Number(Number::PosInt(0)),
            "created_at"@ => Json::String(time),
            "updated_at"@ => Json::String(time)
        ],
    )
}

impl CreateDraft {
    /// The step that follows on an outcome.
    pub open spec fn leads_to(
        self,
        now: Timestamp,
        user_name: String,
        comment: Option<String>,
        step: CreateStep,
    ) -> bool {
        step matches CreateStep::InsertReview(next, insert) && {
            &&& next.business_id == self.business_id
            &&& insert.table@ == "reviews"@
            &&& insert.row@ == review_row(
                self.business_id@,
                self.user.id@,
                user_name@,
                self.rating,
                match comment {
                    Some(comment) => comment@,
                    None => Seq::empty(),
                },
                rfc3339_text(now.secs(), now.nanos()),
            )
        }
    }

    /// Goes on with the time, the name of the user and the clean comment.
    pub fn resume(
        self,
        now: Timestamp,
        user_name: String,
        comment: Option<String>,
    ) -> (step: CreateStep)
        ensures
            self.leads_to(now, user_name, comment, step),
    {
        let comment = match comment {
            Some(comment) => comment,
            None => String::new(),
        };
        let time = now.to_rfc3339();
        let row = Object::new().insert(
            "business_id",
            Value::text(self.business_id.as_str()),
        ).insert("user_id", Value::String(self.user.id)).insert(
            "user_name",
            Value::String(user_name),
        ).insert(
            "rating",
            Value::Number(Number::Float(self.rating)),
        ).insert("comment", Value::String(comment)).insert(
            "is_verified",
            Value::Bool(false),
        ).insert("credibility_weight", Value::Number(Number::Float(ONE))).insert(
            "helpful_count",
            Value::Number(Number::PosInt(0)),
        ).insert("created_at", Value::text(time.as_str())).insert(
            "updated_at",
            Value::text(time.as_str()),
        );
        CreateStep::InsertReview(
            CreateInsert { business_id: self.business_id },
            Insert { table: "reviews", row: Value::Object(row) },
        )
    }
}

impl CreateInsert {
    /// The step that follows on an outcome.
    pub open spec fn leads_to(
        self,
        created: Result<Value, anyhow::Error>,
        step: CreateStep,
    ) -> bool {
        match created {
            Ok(row) => step == CreateStep::RefreshRating(
                CreateRefresh { row },
                self.business_id,
            ),
            Err(error) => {
                &&& step matches CreateStep::Done(Err(failure))
                &&& insert_failure_of(error, failure@)
            },
        }
    }

    /// Goes on with the row that was written.
    pub fn resume(self, created: Result<Value, anyhow::Error>) -> (step: CreateStep)
        ensures
            self.leads_to(created, step),
    {
        match created {
            Ok(row) => CreateStep::RefreshRating(CreateRefresh { row }, self.business_id),
            Err(error) => CreateStep::Done(Err(map_review_insert_error(error))),
        }
    }
}

impl CreateRefresh {
    /// The step that follows on an outcome.
    pub open spec fn leads_to(self, refreshed: Result<(), AppError>, step: CreateStep) -> bool {
        match refreshed {
            Ok(()) => step == CreateStep::Done(
                Ok(WrittenReview { status: 201, row: self.row }),
            ),
            Err(error) => step == CreateStep::Done(Err(error)),
        }
    }

    /// Ends with whether the rating is up to date.
    pub fn resume(self, refreshed: Result<(), AppError>) -> (step: CreateStep)
        ensures
            self.leads_to(refreshed, step),
    {
        match refreshed {
            Ok(()) => CreateStep::Done(Ok(WrittenReview { status: 201, row: self.row })),
            Err(error) => CreateStep::Done(Err(error)),
        }
    }
}

} // verus!
