//! A review changed and deleted, as sequences of steps.

use crate::backend::{Param, ParamView, Query, QueryView, RateCheck, Update};
use crate::clock::{rfc3339_text, Timestamp};
use crate::errors::{AppError, Failure};
use crate::metadata::{text_or_empty, value_str};
use crate::models::{AuthUser, TextRequest};
use crate::rating::{is_between, validate_rating};
use crate::review_write::{by_id, missing_row, required_row, row_by_id, COMMENT_LIMIT};
use crate::reviews::{
    ensure_not_owned_business_review, ensure_review_update_rate_allowed,
    review_update_rate_allowed, update_key,
};
use crate::text::same;
use crate::value::{string_view, Json, Number, Object, Value};
use vstd::prelude::*;

verus! {

/// A request to change a review. The rating is the bit pattern of a double.
#[derive(Debug)]
pub struct ReviewUpdate {
    pub rating: Option<u64>,
    pub comment: Option<String>,
}

/// What is to be done next when a review is changed.
#[derive(Debug)]
pub enum UpdateStep {
    /// Look for the review with this id.
    FindReview(UpdateFound, String),
    /// Select the business.
    SelectBusiness(UpdateBusiness, Query),
    /// Find out whether the change is allowed.
    CheckRate(UpdateRate, RateCheck),
    /// Clean the comment.
    SanitizeComment(UpdateComment, TextRequest),
    /// Tell the time.
    ReadClock(UpdateDraft),
    /// Change the rows; the outcome is what they are then.
    UpdateRows(UpdateSave, Update),
    /// Bring the rating of the business with this id up to date.
    RefreshRating(UpdateRefresh, String),
    /// The outcome: the row to be shown.
    Done(Result<Value, AppError>),
}

/// A change whose review is being looked for.
#[derive(Debug)]
pub struct UpdateFound {
    pub id: String,
    pub payload: ReviewUpdate,
    pub user: AuthUser,
}

/// A change whose business is being selected.
#[derive(Debug)]
pub struct UpdateBusiness {
    pub id: String,
    pub payload: ReviewUpdate,
    pub user: AuthUser,
    pub business_id: String,
}

/// A change that waits to be allowed.
#[derive(Debug)]
pub struct UpdateRate {
    pub id: String,
    pub payload: ReviewUpdate,
    pub user: AuthUser,
    pub business_id: String,
}

/// A change whose comment is being cleaned.
#[derive(Debug)]
pub struct UpdateComment {
    pub id: String,
    pub rating: Option<u64>,
    pub user: AuthUser,
    pub business_id: String,
}

/// A change for which the time is being told: what is to be written, as far as it is given.
#[derive(Debug)]
pub struct UpdateDraft {
    pub id: String,
    pub rating: Option<u64>,
    pub comment: Option<String>,
    pub user: AuthUser,
    pub business_id: String,
}

/// A change that is being written.
#[derive(Debug)]
pub struct UpdateSave {
    pub business_id: String,
}

/// A change that is written, and for which the rating of the business is being brought up to
/// date.
#[derive(Debug)]
pub struct UpdateRefresh {
    pub row: Value,
}

/// Begins to change a review.
pub fn update_review(id: String, payload: ReviewUpdate, auth_user: AuthUser) -> (step: UpdateStep)
    ensures
        step matches UpdateStep::FindReview(next, wanted) && {
            &&& next == (UpdateFound { id, payload, user: auth_user })
            &&& wanted@ == id@
        },
{
    let wanted = id.clone();
    UpdateStep::FindReview(UpdateFound { id, payload, user: auth_user }, wanted)
}

impl UpdateFound {
    /// The step that follows on an outcome.
    pub open spec fn leads_to(self, existing: Result<Value, AppError>, step: UpdateStep) -> bool {
        match existing {
            Ok(review) => if text_or_empty(review@, "user_id"@) != self.user.id@ {
                &&& step matches UpdateStep::Done(Err(error))
                &&& error@ == Failure::Forbidden("Not your review"@)
            } else {
                &&& step matches UpdateStep::SelectBusiness(next, query)
                &&& next.id == self.id
                &&& next.payload == self.payload
                &&& next.user == self.user
                &&& next.business_id@ == text_or_empty(review@, "business_id"@)
                &&& query@ == row_by_id(
                    "businesses"@,
                    text_or_empty(review@, "business_id"@),
                )
            },
            Err(error) => step == UpdateStep::Done(Err(error)),
        }
    }

    /// Goes on with the review, which has to be the user's own.
    pub fn resume(self, existing: Result<Value, AppError>) -> (step: UpdateStep)
        ensures
            self.leads_to(existing, step),
    {
        let review = match existing {
            Ok(review) => review,
            Err(error) => return UpdateStep::Done(Err(error)),
        };
        if !same(value_str(&review, "user_id"), self.user.id.as_str()) {
            return UpdateStep::Done(Err(AppError::Forbidden("Not your review".to_owned())));
        }
        let business_id = value_str(&review, "business_id").to_owned();
        let query = by_id("businesses", business_id.clone());
        UpdateStep::SelectBusiness(
            UpdateBusiness { id: self.id, payload: self.payload, user: self.user, business_id },
            query,
        )
    }
}

impl UpdateBusiness {
    /// The step that follows on an outcome.
    pub open spec fn leads_to(
        self,
        business: Result<Option<Value>, anyhow::Error>,
        step: UpdateStep,
    ) -> bool {
        match business {
            Ok(Some(business)) => if text_or_empty(business@, "owner_id"@) == self.user.id@ {
                &&& step matches UpdateStep::Done(Err(error))
                &&& error@ == Failure::Forbidden(
                    "Business owners cannot review their own listing"@,
                )
            } else {
                &&& step matches UpdateStep::CheckRate(next, check)
                &&& next.id == self.id
                &&& next.payload == self.payload
                &&& next.user == self.user
                &&& next.business_id == self.business_id
                &&& check.key@ == update_key(self.user.id@, self.id@)
                &&& check.limit == 8
                &&& check.window_secs == 3600
            },
            _ => {
                &&& step matches UpdateStep::Done(Err(error))
                &&& missing_row(business, "Business not found"@, error)
            },
        }
    }

    /// Goes on with the business, which has to be there and to be someone else's.
    pub fn resume(self, business: Result<Option<Value>, anyhow::Error>) -> (step: UpdateStep)
        ensures
            self.leads_to(business, step),
    {
        let business = match required_row(business, "Business not found") {
            Ok(business) => business,
            Err(error) => return UpdateStep::Done(Err(error)),
        };
        match ensure_not_owned_business_review(&business, &self.user) {
            Ok(()) => {
                let check = ensure_review_update_rate_allowed(
                    self.user.id.as_str(),
                    self.id.as_str(),
                );
                UpdateStep::CheckRate(
                    UpdateRate {
                        id: self.id,
                        payload: self.payload,
                        user: self.user,
                        business_id: self.business_id,
                    },
                    check,
                )
            },
            Err(error) => UpdateStep::Done(Err(error)),
        }
    }
}

impl UpdateRate {
    /// The step that follows on an outcome.
    pub open spec fn leads_to(self, allowed: bool, step: UpdateStep) -> bool {
        if !allowed {
            step == UpdateStep::Done(Err(AppError::RateLimited))
        } else if self.payload.rating matches Some(rating) && !is_between(rating, 1, 5) {
            &&& step matches UpdateStep::Done(Err(error))
            &&& error@ == Failure::BadRequest("Rating must be between 1 and 5"@)
        } else if self.payload.comment is Some {
            step == UpdateStep::SanitizeComment(
                UpdateComment {
                    id: self.id,
                    rating: self.payload.rating,
                    user: self.user,
                    business_id: self.business_id,
                },
                TextRequest { text: self.payload.comment, limit: COMMENT_LIMIT },
            )
        } else {
            step == UpdateStep::ReadClock(
                UpdateDraft {
                    id: self.id,
                    rating: self.payload.rating,
                    comment: None,
                    user: self.user,
                    business_id: self.business_id,
                },
            )
        }
    }

    /// Goes on when the change is allowed, and its rating, if there is one, is a rating. A comment
    /// is cleaned where there is one.
    pub fn resume(self, allowed: bool) -> (step: UpdateStep)
        ensures
            self.leads_to(allowed, step),
    {
        if let Err(error) = review_update_rate_allowed(allowed) {
            return UpdateStep::Done(Err(error));
        }
        if let Some(rating) = self.payload.rating {
            if let Err(error) = validate_rating(rating) {
                return UpdateStep::Done(Err(error));
            }
        }
        match self.payload.comment {
            Some(comment) => UpdateStep::SanitizeComment(
                UpdateComment {
                    id: self.id,
                    rating: self.payload.rating,
                    user: self.user,
                    business_id: self.business_id,
                },
                TextRequest { text: Some(comment), limit: COMMENT_LIMIT },
            ),
            None => UpdateStep::ReadClock(
                UpdateDraft {
                    id: self.id,
                    rating: self.payload.rating,
                    comment: None,
                    user: self.user,
                    business_id: self.business_id,
                },
            ),
        }
    }
}

impl UpdateComment {
    /// The step that follows on an outcome.
    pub open spec fn leads_to(self, cleaned: String, step: UpdateStep) -> bool {
        step == UpdateStep::ReadClock(
            UpdateDraft {
                id: self.id,
                rating: self.rating,
                comment: Some(cleaned),
                user: self.user,
                business_id: self.business_id,
            },
        )
    }

    /// Goes on with the clean comment.
    pub fn resume(self, cleaned: String) -> (step: UpdateStep)
        ensures
            self.leads_to(cleaned, step),
    {
        UpdateStep::ReadClock(
            UpdateDraft {
                id: self.id,
                rating: self.rating,
                comment: Some(cleaned),
                user: self.user,
                business_id: self.business_id,
            },
        )
    }
}

/// What is written into a review that is changed: when, and the rating and the comment where
/// they are given.
pub open spec fn review_changes(
    time: Seq<char>,
    rating: Option<u64>,
    comment: Option<Seq<char>>,
) -> Json {
    let dated = map!["updated_at"@ => Json::String(time)];
    let rated = match rating {
        Some(rating) => dated.insert("rating"@, Json::Number(Number::Float(rating))),
        None => dated,
    };
    Json::Object(
        match comment {
            Some(comment) => rated.insert("comment"@, Json::String(comment)),
            None => rated,
        },
    )
}

/// A review with an id, if it is the user's own.
pub open spec fn own_review(id: Seq<char>, user_id: Seq<char>) -> QueryView {
    QueryView {
        table: "reviews"@,
        params: seq![ParamView::Eq("id"@, id), ParamView::Eq("user_id"@, user_id)],
    }
}

impl UpdateDraft {
    /// The step that follows on an outcome.
    pub open spec fn leads_to(self, now: Timestamp, step: UpdateStep) -> bool {
        step matches UpdateStep::UpdateRows(next, update) && {
            &&& next.business_id == self.business_id
            &&& update.rows@ == own_review(self.id@, self.user.id@)
            &&& update.members@ == review_changes(
                rfc3339_text(now.secs(), now.nanos()),
                self.rating,
                string_view(self.comment),
            )
        }
    }

    /// Goes on with the time.
    pub fn resume(self, now: Timestamp) -> (step: UpdateStep)
        ensures
            self.leads_to(now, step),
    {
        let mut members = Object::new().insert("updated_at", Value::String(now.to_rfc3339()));
        if let Some(rating) = self.rating {
            members = members.insert("rating", Value::Number(Number::Float(rating)));
        }
        if let Some(comment) = self.comment {
            members = members.insert("comment", Value::String(comment));
        }
        let ghost wanted = own_review(self.id@, self.user.id@);
        let rows = Query::new("reviews", Param::Eq("id", self.id)).and(
            Param::Eq("user_id", self.user.id),
        );
        assert(rows@.params =~= wanted.params);
        UpdateStep::UpdateRows(
            UpdateSave { business_id: self.business_id },
            Update { rows, members: Value::Object(members) },
        )
    }
}

impl UpdateSave {
    /// The step that follows on an outcome.
    pub open spec fn leads_to(
        self,
        updated: Result<Vec<Value>, anyhow::Error>,
        step: UpdateStep,
    ) -> bool {
        match updated {
            Ok(rows) => if rows@.len() == 0 {
                &&& step matches UpdateStep::Done(Err(error))
                &&& error@ == Failure::NotFound("Review not found"@)
            } else {
                step == UpdateStep::RefreshRating(
                    UpdateRefresh { row: rows@[0] },
                    self.business_id,
                )
            },
            Err(error) => step == UpdateStep::Done(Err(AppError::Other(error))),
        }
    }

    /// Goes on with the first of the changed rows, which has to be there.
    pub fn resume(self, updated: Result<Vec<Value>, anyhow::Error>) -> (step: UpdateStep)
        ensures
            self.leads_to(updated, step),
    {
        match updated {
            Ok(rows) => {
                let mut rows = rows;
                if rows.len() == 0 {
                    return UpdateStep::Done(
                        Err(AppError::NotFound("Review not found".to_owned())),
                    );
                }
                let row = rows.remove(0);
                UpdateStep::RefreshRating(UpdateRefresh { row }, self.business_id)
            },
            Err(error) => UpdateStep::Done(Err(AppError::Other(error))),
        }
    }
}

impl UpdateRefresh {
    /// The step that follows on an outcome.
    pub open spec fn leads_to(self, refreshed: Result<(), AppError>, step: UpdateStep) -> bool {
        match refreshed {
            Ok(()) => step == UpdateStep::Done(Ok(self.row)),
            Err(error) => step == UpdateStep::Done(Err(error)),
        }
    }

    /// Ends with whether the rating is up to date.
    pub fn resume(self, refreshed: Result<(), AppError>) -> (step: UpdateStep)
        ensures
            self.leads_to(refreshed, step),
    {
        match refreshed {
            Ok(()) => UpdateStep::Done(Ok(self.row)),
            Err(error) => UpdateStep::Done(Err(error)),
        }
    }
}

/// What is to be done next when a review is deleted.
#[derive(Debug)]
pub enum DeleteStep {
    /// Look for the review with this id.
    FindReview(DeleteFound, String),
    /// Delete the rows.
    DeleteRows(DeleteSave, Query),
    /// Bring the rating of the business with this id up to date.
    RefreshRating(DeleteRefresh, String),
    /// Answer.
    Done(Result<Value, AppError>),
}

/// A deletion whose review is being looked for.
#[derive(Debug)]
pub struct DeleteFound {
    pub id: String,
    pub user: AuthUser,
}

/// A deletion that is being done.
#[derive(Debug)]
pub struct DeleteSave {
    pub business_id: String,
}

/// A deletion that is done, and for which the rating of the business is being brought up to
/// date.
#[derive(Debug)]
pub struct DeleteRefresh;

/// Begins to delete a review.
pub fn delete_review(id: String, auth_user: AuthUser) -> (step: DeleteStep)
    ensures
        step matches DeleteStep::FindReview(next, wanted) && {
            &&& next == (DeleteFound { id, user: auth_user })
            &&& wanted@ == id@
        },
{
    let wanted = id.clone();
    DeleteStep::FindReview(DeleteFound { id, user: auth_user }, wanted)
}

/// A user may delete a review: its own, and as an administrator any.
pub open spec fn may_delete(review: Json, user_id: Seq<char>, role: Seq<char>) -> bool {
    text_or_empty(review, "user_id"@) == user_id || role == "admin"@
}

impl DeleteFound {
    /// The step that follows on an outcome.
    pub open spec fn leads_to(self, existing: Result<Value, AppError>, step: DeleteStep) -> bool {
        match existing {
            Ok(review) => if may_delete(review@, self.user.id@, self.user.role@) {
                &&& step matches DeleteStep::DeleteRows(next, query)
                &&& next.business_id@ == text_or_empty(review@, "business_id"@)
                &&& query@ == (QueryView {
                    table: "reviews"@,
                    params: seq![ParamView::Eq("id"@, self.id@)],
                })
            } else {
                &&& step matches DeleteStep::Done(Err(error))
                &&& error@ == Failure::Forbidden("Not your review"@)
            },
            Err(error) => step == DeleteStep::Done(Err(error)),
        }
    }

    /// Goes on with the review, which the user has to be allowed to delete.
    pub fn resume(self, existing: Result<Value, AppError>) -> (step: DeleteStep)
        ensures
            self.leads_to(existing, step),
    {
        let review = match existing {
            Ok(review) => review,
            Err(error) => return DeleteStep::Done(Err(error)),
        };
        if !same(value_str(&review, "user_id"), self.user.id.as_str()) && !same(
            self.user.role.as_str(),
            "admin",
        ) {
            return DeleteStep::Done(Err(AppError::Forbidden("Not your review".to_owned())));
        }
        DeleteStep::DeleteRows(
            DeleteSave { business_id: value_str(&review, "business_id").to_owned() },
            Query::new("reviews", Param::Eq("id", self.id)),
        )
    }
}

impl DeleteSave {
    /// The step that follows on an outcome.
    pub open spec fn leads_to(self, deleted: Result<(), anyhow::Error>, step: DeleteStep) -> bool {
        match deleted {
            Ok(()) => step == DeleteStep::RefreshRating(DeleteRefresh, self.business_id),
            Err(error) => step == DeleteStep::Done(Err(AppError::Other(error))),
        }
    }

    /// Goes on when the review is deleted.
    pub fn resume(self, deleted: Result<(), anyhow::Error>) -> (step: DeleteStep)
        ensures
            self.leads_to(deleted, step),
    {
        match deleted {
            Ok(()) => DeleteStep::RefreshRating(DeleteRefresh, self.business_id),
            Err(error) => DeleteStep::Done(Err(AppError::Other(error))),
        }
    }
}

impl DeleteRefresh {
    /// The step that follows on an outcome.
    pub open spec fn leads_to(self, refreshed: Result<(), AppError>, step: DeleteStep) -> bool {
        match refreshed {
            Ok(()) => {
                &&& step matches DeleteStep::Done(Ok(body))
                &&& body@ == Json::Object(
                    map!["message"@ => Json::String("Review deleted"@)],
                )
            },
            Err(error) => step == DeleteStep::Done(Err(error)),
        }
    }

    /// Ends with whether the rating is up to date.
    pub fn resume(self, refreshed: Result<(), AppError>) -> (step: DeleteStep)
        ensures
            self.leads_to(refreshed, step),
    {
        match refreshed {
            Ok(()) => DeleteStep::Done(
                Ok(Value::Object(Object::new().insert("message", Value::text("Review deleted")))),
            ),
            Err(error) => DeleteStep::Done(Err(error)),
        }
    }
}

} // verus!
