//! What holds of reviews that are written, changed, deleted and listed, and of ratings, from
//! beginning to end.

use crate::backend::ParamView;
use crate::clock::{rfc3339_text, Timestamp};
use crate::errors::{prints, AppError, Failure};
use crate::headers::header_lines;
use crate::metadata::text_or_empty;
use crate::models::{AuthUser, ResponseView};
use crate::rating::{double_json, is_between};
use crate::review_change::{
    may_delete, own_review, review_changes, DeleteFound, DeleteStep, ReviewUpdate, UpdateFound,
    UpdateStep,
};
use crate::review_list::{
    list_body, page_of, reviews_of, ListStep, PageMeta, PaginationParams, Window, WindowRequest,
};
use crate::review_rating::{ratings_in, ratings_of, review_summary, RatingStep};
use crate::review_write::{
    begins, missing_row, review_by, review_row, row_by_id, CreateStep, ReviewCreate, WrittenReview,
    COMMENT_LIMIT,
};
use crate::reviews::{insert_failure_of, recent_reviews, rpc_unavailable, update_key};
use crate::value::{string_view, Json, Value};
use vstd::prelude::*;

verus! {

/// What comes of everything that writing a review has done outside.
pub struct CreateOutcomes {
    pub id: Result<String, AppError>,
    pub business: Result<Option<Value>, anyhow::Error>,
    pub existing: Result<Option<Value>, anyhow::Error>,
    pub asked_at: Timestamp,
    pub recent: Result<i64, anyhow::Error>,
    pub composed_at: Timestamp,
    pub user_name: String,
    pub comment: Option<String>,
    pub created: Result<Value, anyhow::Error>,
    pub refreshed: Result<(), AppError>,
}

/// A review that is written: what is asked for, by whom, and what comes of everything that is
/// done outside.
pub struct ReviewCreation {
    pub payload: ReviewCreate,
    pub user: AuthUser,
    pub outcomes: CreateOutcomes,
}

impl ReviewCreation {
    /// One step comes next after another.
    pub open spec fn follows(self, step: CreateStep, next: CreateStep) -> bool {
        match step {
            CreateStep::CheckId(state, _) => state.leads_to(self.outcomes.id, next),
            CreateStep::SelectBusiness(state, _) => state.leads_to(self.outcomes.business, next),
            CreateStep::SelectExisting(state, _) => state.leads_to(self.outcomes.existing, next),
            CreateStep::ReadClock(state) => state.leads_to(self.outcomes.asked_at, next),
            CreateStep::CountRecent(state, _) => state.leads_to(self.outcomes.recent, next),
            CreateStep::Compose(state, _) => state.leads_to(
                self.outcomes.composed_at,
                self.outcomes.user_name,
                self.outcomes.comment,
                next,
            ),
            CreateStep::InsertReview(state, _) => state.leads_to(self.outcomes.created, next),
            CreateStep::RefreshRating(state, _) => state.leads_to(self.outcomes.refreshed, next),
            CreateStep::Done(_) => false,
        }
    }

    /// These are the steps, up to one of them.
    pub open spec fn takes(self, steps: Seq<CreateStep>) -> bool {
        &&& steps.len() > 0
        &&& begins(self.payload, self.user, steps[0])
        &&& forall|i: int|
            #![trigger steps[i]]
            0 < i < steps.len() ==> self.follows(steps[i - 1], steps[i])
    }

    /// The rating is one, and the id of the business an id.
    pub open spec fn is_sound(self) -> bool {
        is_between(self.payload.rating, 1, 5) && self.outcomes.id is Ok
    }

    /// The business is there, and is not the user's own.
    pub open spec fn is_of_another(self) -> bool {
        &&& self.outcomes.business matches Ok(Some(business))
        &&& text_or_empty(business@, "owner_id"@) != self.user.id@
    }

    /// The user has not reviewed the business yet.
    pub open spec fn is_first(self) -> bool {
        self.outcomes.existing matches Ok(None)
    }

    /// The user has not written too many reviews in the last hour.
    pub open spec fn is_in_time(self) -> bool {
        self.outcomes.recent matches Ok(count) && count < 8
    }

    /// What the row holds that is written.
    pub open spec fn row(self) -> Json {
        review_row(
            self.outcomes.id->Ok_0@,
            self.user.id@,
            self.outcomes.user_name@,
            self.payload.rating,
            match self.outcomes.comment {
                Some(comment) => comment@,
                None => Seq::empty(),
            },
            rfc3339_text(self.outcomes.composed_at.secs(), self.outcomes.composed_at.nanos()),
        )
    }

    /// What has been done, and what has come of it, by the time a step is taken.
    pub open spec fn accounts_for(self, step: CreateStep) -> bool {
        match step {
            CreateStep::CheckId(state, check) => {
                &&& is_between(self.payload.rating, 1, 5)
                &&& state.rating == self.payload.rating
                &&& state.comment == self.payload.comment
                &&& state.user == self.user
                &&& check.id == self.payload.business_id
            },
            CreateStep::SelectBusiness(state, query) => {
                &&& self.is_sound()
                &&& self.carries(state.draft)
                &&& query@ == row_by_id("businesses"@, self.outcomes.id->Ok_0@)
            },
            CreateStep::SelectExisting(state, query) => {
                &&& self.is_sound() && self.is_of_another()
                &&& self.carries(state.draft)
                &&& query@ == review_by(self.outcomes.id->Ok_0@, self.user.id@)
            },
            CreateStep::ReadClock(state) => {
                &&& self.is_sound() && self.is_of_another() && self.is_first()
                &&& self.carries(state.draft)
            },
            CreateStep::CountRecent(state, query) => {
                &&& self.is_sound() && self.is_of_another() && self.is_first()
                &&& self.carries(state.draft)
                &&& query@ == recent_reviews(self.outcomes.asked_at, self.user.id@)
            },
            CreateStep::Compose(state, request) => {
                &&& self.is_sound() && self.is_of_another() && self.is_first()
                &&& self.is_in_time()
                &&& state.business_id@ == self.outcomes.id->Ok_0@
                &&& state.rating == self.payload.rating
                &&& state.user == self.user
                &&& request.text == self.payload.comment
                &&& request.limit == COMMENT_LIMIT
            },
            CreateStep::InsertReview(state, insert) => {
                &&& self.is_sound() && self.is_of_another() && self.is_first()
                &&& self.is_in_time()
                &&& state.business_id@ == self.outcomes.id->Ok_0@
                &&& insert.table@ == "reviews"@
                &&& insert.row@ == self.row()
            },
            CreateStep::RefreshRating(state, business_id) => {
                &&& self.is_sound() && self.is_of_another() && self.is_first()
                &&& self.is_in_time()
                &&& self.outcomes.created == Ok::<Value, anyhow::Error>(state.row)
                &&& business_id@ == self.outcomes.id->Ok_0@
            },
            CreateStep::Done(Ok(written)) => {
                &&& self.is_sound() && self.is_of_another() && self.is_first()
                &&& self.is_in_time()
                &&& self.outcomes.refreshed is Ok
                &&& self.outcomes.created matches Ok(row)
                &&& written == (WrittenReview { status: 201, row })
            },
            CreateStep::Done(Err(error)) => self.fails_with(error),
        }
    }

    /// The draft is of this review.
    pub open spec fn carries(self, draft: crate::review_write::Draft) -> bool {
        &&& self.outcomes.id == Ok::<String, AppError>(draft.business_id)
        &&& draft.rating == self.payload.rating
        &&& draft.comment == self.payload.comment
        &&& draft.user == self.user
    }

    /// The review is refused, and this is why: the first check that fails names the failure.
    pub open spec fn fails_with(self, error: AppError) -> bool {
        if !is_between(self.payload.rating, 1, 5) {
            error@ == Failure::BadRequest("Rating must be between 1 and 5"@)
        } else if self.outcomes.id is Err {
            error == self.outcomes.id->Err_0
        } else if !(self.outcomes.business matches Ok(Some(_))) {
            missing_row(self.outcomes.business, "Business not found"@, error)
        } else if !self.is_of_another() {
            error@ == Failure::Forbidden("Business owners cannot review their own listing"@)
        } else if !self.is_first() {
            match self.outcomes.existing {
                Ok(_) => error@ == Failure::Conflict("You have already reviewed this business"@),
                Err(cause) => error == AppError::Other(cause),
            }
        } else if !self.is_in_time() {
            match self.outcomes.recent {
                Ok(_) => error == AppError::RateLimited,
                Err(cause) => error == AppError::Other(cause),
            }
        } else if self.outcomes.created is Err {
            insert_failure_of(self.outcomes.created->Err_0, error@)
        } else {
            self.outcomes.refreshed == Err::<(), AppError>(error)
        }
    }
}

/// Every step of writing a review is taken only when all that has to come before it has.
///
/// So a review is written only with a rating between 1 and 5, of a business that is there and not
/// the user's own, which the user has not reviewed yet, and by a user with fewer than eight
/// reviews in the last hour. A failure is the one of the first check that fails.
pub proof fn law_review_creation(creation: ReviewCreation, steps: Seq<CreateStep>, at: int)
    requires
        creation.takes(steps),
        0 <= at < steps.len(),
    ensures
        creation.accounts_for(steps[at]),
    decreases at,
{
    if at > 0 {
        law_review_creation(creation, steps, at - 1);
        assert(creation.follows(steps[at - 1], steps[at]));
    }
}

/// How many steps come before a step at most.
pub open spec fn place_in_review_creation(step: CreateStep) -> int {
    match step {
        CreateStep::CheckId(_, _) => 0,
        CreateStep::SelectBusiness(_, _) => 1,
        CreateStep::SelectExisting(_, _) => 2,
        CreateStep::ReadClock(_) => 3,
        CreateStep::CountRecent(_, _) => 4,
        CreateStep::Compose(_, _) => 5,
        CreateStep::InsertReview(_, _) => 6,
        CreateStep::RefreshRating(_, _) => 7,
        CreateStep::Done(_) => 8,
    }
}

/// Writing a review comes to its end after eight steps at most.
pub proof fn law_review_creation_ends(creation: ReviewCreation, steps: Seq<CreateStep>, at: int)
    requires
        creation.takes(steps),
        0 <= at < steps.len(),
    ensures
        at <= place_in_review_creation(steps[at]) <= 8,
    decreases at,
{
    if at > 0 {
        law_review_creation_ends(creation, steps, at - 1);
        assert(creation.follows(steps[at - 1], steps[at]));
    }
}

/// A review against which nothing speaks, and for which nothing fails outside, is not refused.
pub proof fn law_review_creation_succeeds(
    creation: ReviewCreation,
    steps: Seq<CreateStep>,
    at: int,
)
    requires
        creation.takes(steps),
        creation.is_sound(),
        creation.is_of_another(),
        creation.is_first(),
        creation.is_in_time(),
        creation.outcomes.created is Ok,
        creation.outcomes.refreshed is Ok,
        0 <= at < steps.len(),
    ensures
        !(steps[at] matches CreateStep::Done(Err(_))),
{
    law_review_creation(creation, steps, at);
}

/// What comes of everything that changing a review has done outside.
pub struct UpdateOutcomes {
    pub existing: Result<Value, AppError>,
    pub business: Result<Option<Value>, anyhow::Error>,
    pub allowed: bool,
    pub comment: String,
    pub now: Timestamp,
    pub updated: Result<Vec<Value>, anyhow::Error>,
    pub refreshed: Result<(), AppError>,
}

/// A review that is changed: which one, what is asked for, by whom, and what comes of everything
/// that is done outside.
pub struct ReviewChange {
    pub id: String,
    pub payload: ReviewUpdate,
    pub user: AuthUser,
    pub outcomes: UpdateOutcomes,
}

impl ReviewChange {
    /// One step comes next after another.
    pub open spec fn follows(self, step: UpdateStep, next: UpdateStep) -> bool {
        match step {
            UpdateStep::FindReview(state, _) => state.leads_to(self.outcomes.existing, next),
            UpdateStep::SelectBusiness(state, _) => state.leads_to(self.outcomes.business, next),
            UpdateStep::CheckRate(state, _) => state.leads_to(self.outcomes.allowed, next),
            UpdateStep::SanitizeComment(state, _) => state.leads_to(self.outcomes.comment, next),
            UpdateStep::ReadClock(state) => state.leads_to(self.outcomes.now, next),
            UpdateStep::UpdateRows(state, _) => state.leads_to(self.outcomes.updated, next),
            UpdateStep::RefreshRating(state, _) => state.leads_to(self.outcomes.refreshed, next),
            UpdateStep::Done(_) => false,
        }
    }

    /// These are the steps, up to one of them.
    pub open spec fn takes(self, steps: Seq<UpdateStep>) -> bool {
        &&& steps.len() > 0
        &&& steps[0] matches UpdateStep::FindReview(first, _)
        &&& first == (UpdateFound { id: self.id, payload: self.payload, user: self.user })
        &&& forall|i: int|
            #![trigger steps[i]]
            0 < i < steps.len() ==> self.follows(steps[i - 1], steps[i])
    }

    /// The review is the user's own.
    pub open spec fn is_own(self) -> bool {
        &&& self.outcomes.existing matches Ok(review)
        &&& text_or_empty(review@, "user_id"@) == self.user.id@
    }

    /// The business is there, and is not the user's own.
    pub open spec fn is_of_another(self) -> bool {
        &&& self.outcomes.business matches Ok(Some(business))
        &&& text_or_empty(business@, "owner_id"@) != self.user.id@
    }

    /// The rating, if there is one, is between 1 and 5.
    pub open spec fn is_rated_soundly(self) -> bool {
        self.payload.rating matches Some(rating) ==> is_between(rating, 1, 5)
    }

    /// The comment that is written: the one asked for, cleaned, and none where none is asked for.
    pub open spec fn comment(self) -> Option<Seq<char>> {
        match self.payload.comment {
            Some(_) => Some(self.outcomes.comment@),
            None => None,
        }
    }

    /// The business that the review is of.
    pub open spec fn business_id(self) -> Seq<char> {
        text_or_empty(self.outcomes.existing->Ok_0@, "business_id"@)
    }

    /// What has been done, and what has come of it, by the time a step is taken.
    pub open spec fn accounts_for(self, step: UpdateStep) -> bool {
        match step {
            UpdateStep::FindReview(state, _) => {
                state == (UpdateFound { id: self.id, payload: self.payload, user: self.user })
            },
            UpdateStep::SelectBusiness(state, query) => {
                &&& self.is_own()
                &&& state.id == self.id && state.payload == self.payload && state.user
                    == self.user
                &&& state.business_id@ == self.business_id()
                &&& query@ == row_by_id("businesses"@, self.business_id())
            },
            UpdateStep::CheckRate(state, check) => {
                &&& self.is_own() && self.is_of_another()
                &&& state.id == self.id && state.payload == self.payload && state.user
                    == self.user
                &&& state.business_id@ == self.business_id()
                &&& check.key@ == update_key(self.user.id@, self.id@)
                &&& check.limit == 8 && check.window_secs == 3600
            },
            UpdateStep::SanitizeComment(state, request) => {
                &&& self.is_own() && self.is_of_another() && self.outcomes.allowed
                &&& self.is_rated_soundly()
                &&& self.payload.comment is Some
                &&& state.id == self.id && state.rating == self.payload.rating && state.user
                    == self.user
                &&& state.business_id@ == self.business_id()
                &&& request.text == self.payload.comment
                &&& request.limit == COMMENT_LIMIT
            },
            UpdateStep::ReadClock(state) => {
                &&& self.is_own() && self.is_of_another() && self.outcomes.allowed
                &&& self.is_rated_soundly()
                &&& state.id == self.id && state.rating == self.payload.rating && state.user
                    == self.user
                &&& string_view(state.comment) == self.comment()
                &&& state.business_id@ == self.business_id()
            },
            UpdateStep::UpdateRows(state, update) => {
                &&& self.is_own() && self.is_of_another() && self.outcomes.allowed
                &&& self.is_rated_soundly()
                &&& state.business_id@ == self.business_id()
                &&& update.rows@ == own_review(self.id@, self.user.id@)
                &&& update.members@ == review_changes(
                    rfc3339_text(self.outcomes.now.secs(), self.outcomes.now.nanos()),
                    self.payload.rating,
                    self.comment(),
                )
            },
            UpdateStep::RefreshRating(state, business_id) => {
                &&& self.is_own() && self.is_of_another() && self.outcomes.allowed
                &&& self.is_rated_soundly()
                &&& self.outcomes.updated matches Ok(rows)
                &&& rows@.len() > 0 && state.row == rows@[0]
                &&& business_id@ == self.business_id()
            },
            UpdateStep::Done(Ok(row)) => {
                &&& self.is_own() && self.is_of_another() && self.outcomes.allowed
                &&& self.is_rated_soundly()
                &&& self.outcomes.refreshed is Ok
                &&& self.outcomes.updated matches Ok(rows)
                &&& rows@.len() > 0 && row == rows@[0]
            },
            UpdateStep::Done(Err(error)) => self.fails_with(error),
        }
    }

    /// The change is refused, and this is why: the first check that fails names the failure.
    pub open spec fn fails_with(self, error: AppError) -> bool {
        if self.outcomes.existing is Err {
            error == self.outcomes.existing->Err_0
        } else if !self.is_own() {
            error@ == Failure::Forbidden("Not your review"@)
        } else if !(self.outcomes.business matches Ok(Some(_))) {
            missing_row(self.outcomes.business, "Business not found"@, error)
        } else if !self.is_of_another() {
            error@ == Failure::Forbidden("Business owners cannot review their own listing"@)
        } else if !self.outcomes.allowed {
            error == AppError::RateLimited
        } else if !self.is_rated_soundly() {
            error@ == Failure::BadRequest("Rating must be between 1 and 5"@)
        } else {
            match self.outcomes.updated {
                Ok(rows) => if rows@.len() == 0 {
                    error@ == Failure::NotFound("Review not found"@)
                } else {
                    self.outcomes.refreshed == Err::<(), AppError>(error)
                },
                Err(cause) => error == AppError::Other(cause),
            }
        }
    }
}

/// Every step of changing a review is taken only when all that has to come before it has.
///
/// So nobody changes a review but who wrote it, nor one of a business of their own, nor more often
/// than allowed, nor to a rating that is none; what is changed is that review alone, and of it the
/// time, and the rating and the comment just where they are asked for. A failure is the one of the
/// first check that fails.
pub proof fn law_review_change(change: ReviewChange, steps: Seq<UpdateStep>, at: int)
    requires
        change.takes(steps),
        0 <= at < steps.len(),
    ensures
        change.accounts_for(steps[at]),
    decreases at,
{
    if at > 0 {
        law_review_change(change, steps, at - 1);
        assert(change.follows(steps[at - 1], steps[at]));
    }
}

/// How many steps come before a step at most.
pub open spec fn place_in_review_change(step: UpdateStep) -> int {
    match step {
        UpdateStep::FindReview(_, _) => 0,
        UpdateStep::SelectBusiness(_, _) => 1,
        UpdateStep::CheckRate(_, _) => 2,
        UpdateStep::SanitizeComment(_, _) => 3,
        UpdateStep::ReadClock(_) => 4,
        UpdateStep::UpdateRows(_, _) => 5,
        UpdateStep::RefreshRating(_, _) => 6,
        UpdateStep::Done(_) => 7,
    }
}

/// Changing a review comes to its end after seven steps at most.
pub proof fn law_review_change_ends(change: ReviewChange, steps: Seq<UpdateStep>, at: int)
    requires
        change.takes(steps),
        0 <= at < steps.len(),
    ensures
        at <= place_in_review_change(steps[at]) <= 7,
    decreases at,
{
    if at > 0 {
        law_review_change_ends(change, steps, at - 1);
        assert(change.follows(steps[at - 1], steps[at]));
    }
}

/// A review that is deleted: which one, by whom, and what comes of everything that is done
/// outside.
pub struct ReviewDeletion {
    pub id: String,
    pub user: AuthUser,
    pub existing: Result<Value, AppError>,
    pub deleted: Result<(), anyhow::Error>,
    pub refreshed: Result<(), AppError>,
}

impl ReviewDeletion {
    /// One step comes next after another.
    pub open spec fn follows(self, step: DeleteStep, next: DeleteStep) -> bool {
        match step {
            DeleteStep::FindReview(state, _) => state.leads_to(self.existing, next),
            DeleteStep::DeleteRows(state, _) => state.leads_to(self.deleted, next),
            DeleteStep::RefreshRating(state, _) => state.leads_to(self.refreshed, next),
            DeleteStep::Done(_) => false,
        }
    }

    /// These are the steps, up to one of them.
    pub open spec fn takes(self, steps: Seq<DeleteStep>) -> bool {
        &&& steps.len() > 0
        &&& steps[0] matches DeleteStep::FindReview(first, _)
        &&& first == (DeleteFound { id: self.id, user: self.user })
        &&& forall|i: int|
            #![trigger steps[i]]
            0 < i < steps.len() ==> self.follows(steps[i - 1], steps[i])
    }

    /// The review is there, and the user wrote it or is an administrator.
    pub open spec fn is_allowed(self) -> bool {
        &&& self.existing matches Ok(review)
        &&& may_delete(review@, self.user.id@, self.user.role@)
    }

    /// The business that the review is of.
    pub open spec fn business_id(self) -> Seq<char> {
        text_or_empty(self.existing->Ok_0@, "business_id"@)
    }

    /// What has been done, and what has come of it, by the time a step is taken.
    pub open spec fn accounts_for(self, step: DeleteStep) -> bool {
        match step {
            DeleteStep::FindReview(state, _) => {
                state == (DeleteFound { id: self.id, user: self.user })
            },
            DeleteStep::DeleteRows(state, query) => {
                &&& self.is_allowed()
                &&& state.business_id@ == self.business_id()
                &&& query@.table == "reviews"@
                &&& query@.params == seq![ParamView::Eq("id"@, self.id@)]
            },
            DeleteStep::RefreshRating(_, business_id) => {
                &&& self.is_allowed() && self.deleted is Ok
                &&& business_id@ == self.business_id()
            },
            DeleteStep::Done(Ok(body)) => {
                &&& self.is_allowed() && self.deleted is Ok && self.refreshed is Ok
                &&& body@ == Json::Object(map!["message"@ => Json::String("Review deleted"@)])
            },
            DeleteStep::Done(Err(error)) => if self.existing is Err {
                error == self.existing->Err_0
            } else if !self.is_allowed() {
                error@ == Failure::Forbidden("Not your review"@)
            } else if self.deleted is Err {
                error == AppError::Other(self.deleted->Err_0)
            } else {
                self.refreshed == Err::<(), AppError>(error)
            },
        }
    }
}

/// A review is deleted only when the user wrote it or is an administrator, and no other review is;
/// anybody else is forbidden to.
pub proof fn law_review_deletion(deletion: ReviewDeletion, steps: Seq<DeleteStep>, at: int)
    requires
        deletion.takes(steps),
        0 <= at < steps.len(),
    ensures
        deletion.accounts_for(steps[at]),
    decreases at,
{
    if at > 0 {
        law_review_deletion(deletion, steps, at - 1);
        assert(deletion.follows(steps[at - 1], steps[at]));
    }
}

/// How many steps come before a step at most.
pub open spec fn place_in_review_deletion(step: DeleteStep) -> int {
    match step {
        DeleteStep::FindReview(_, _) => 0,
        DeleteStep::DeleteRows(_, _) => 1,
        DeleteStep::RefreshRating(_, _) => 2,
        DeleteStep::Done(_) => 3,
    }
}

/// Deleting a review comes to its end after three steps at most.
pub proof fn law_review_deletion_ends(deletion: ReviewDeletion, steps: Seq<DeleteStep>, at: int)
    requires
        deletion.takes(steps),
        0 <= at < steps.len(),
    ensures
        at <= place_in_review_deletion(steps[at]) <= 3,
    decreases at,
{
    if at > 0 {
        law_review_deletion_ends(deletion, steps, at - 1);
        assert(deletion.follows(steps[at - 1], steps[at]));
    }
}

/// A list of the reviews of a business: what is asked for, and what comes of everything that is
/// done outside.
pub struct ReviewListing {
    pub business_id: String,
    pub params: PaginationParams,
    pub id: Result<String, AppError>,
    pub window: Result<Window, AppError>,
    pub reviews: Result<Vec<Value>, anyhow::Error>,
    pub page: PageMeta,
}

impl ReviewListing {
    /// One step comes next after another.
    pub open spec fn follows(self, step: ListStep, next: ListStep) -> bool {
        match step {
            ListStep::CheckId(state, _) => state.leads_to(self.id, next),
            ListStep::FindWindow(state, _) => state.leads_to(self.window, next),
            ListStep::Select(state, _) => state.leads_to(self.reviews, next),
            ListStep::DescribePage(state, _) => state.leads_to(self.page, next),
            ListStep::Done(_) => false,
        }
    }

    /// These are the steps, up to one of them.
    pub open spec fn takes(self, steps: Seq<ListStep>) -> bool {
        &&& steps.len() > 0
        &&& steps[0] matches ListStep::CheckId(first, check)
        &&& first.params == self.params
        &&& check.id == self.business_id
        &&& forall|i: int|
            #![trigger steps[i]]
            0 < i < steps.len() ==> self.follows(steps[i - 1], steps[i])
    }

    /// The page is to be described in the body.
    pub open spec fn is_described(self) -> bool {
        self.params.include_pagination == Some(true)
    }

    /// What has been done, and what has come of it, by the time a step is taken.
    pub open spec fn accounts_for(self, step: ListStep) -> bool {
        match step {
            ListStep::CheckId(state, check) => {
                state.params == self.params && check.id == self.business_id
            },
            ListStep::FindWindow(state, request) => {
                &&& self.id == Ok::<String, AppError>(state.business_id)
                &&& state.include_pagination == self.is_described()
                &&& request == (WindowRequest {
                    limit: self.params.limit,
                    offset: self.params.offset,
                    cursor: self.params.cursor,
                    default_limit: 20,
                    max_limit: 100,
                })
            },
            ListStep::Select(state, query) => {
                &&& self.id matches Ok(id)
                &&& self.window == Ok::<Window, AppError>(state.window)
                &&& state.include_pagination == self.is_described()
                &&& query@ == reviews_of(id@, state.window)
            },
            ListStep::DescribePage(state, request) => {
                &&& self.id is Ok
                &&& self.window matches Ok(window)
                &&& self.reviews == Ok::<Vec<Value>, anyhow::Error>(state.reviews)
                &&& state.limit == window.limit
                &&& state.include_pagination == self.is_described()
                &&& request.window == window
                &&& request.found == state.reviews@.len()
            },
            ListStep::Done(Ok(response)) => {
                &&& self.id is Ok
                &&& self.window matches Ok(window)
                &&& self.reviews matches Ok(reviews)
                &&& response@ == (ResponseView {
                    status: 200,
                    headers: header_lines(self.page.headers),
                    body: list_body(
                        page_of(reviews@, window.limit),
                        self.page,
                        self.is_described(),
                    ),
                })
            },
            ListStep::Done(Err(error)) => if self.id is Err {
                error == self.id->Err_0
            } else if self.window is Err {
                error == self.window->Err_0
            } else {
                self.reviews matches Err(cause) && error == AppError::Other(cause)
            },
        }
    }
}

/// The answer to a list of reviews has the headers that describe the page, and the page itself, in
/// the order in which its reviews were found; how many were found is counted before the page is
/// cut to its size.
pub proof fn law_review_list(listing: ReviewListing, steps: Seq<ListStep>, at: int)
    requires
        listing.takes(steps),
        0 <= at < steps.len(),
    ensures
        listing.accounts_for(steps[at]),
    decreases at,
{
    if at > 0 {
        law_review_list(listing, steps, at - 1);
        assert(listing.follows(steps[at - 1], steps[at]));
    }
}

/// How many steps come before a step at most.
pub open spec fn place_in_review_list(step: ListStep) -> int {
    match step {
        ListStep::CheckId(_, _) => 0,
        ListStep::FindWindow(_, _) => 1,
        ListStep::Select(_, _) => 2,
        ListStep::DescribePage(_, _) => 3,
        ListStep::Done(_) => 4,
    }
}

/// Listing reviews comes to its end after four steps at most.
pub proof fn law_review_list_ends(listing: ReviewListing, steps: Seq<ListStep>, at: int)
    requires
        listing.takes(steps),
        0 <= at < steps.len(),
    ensures
        at <= place_in_review_list(steps[at]) <= 4,
    decreases at,
{
    if at > 0 {
        law_review_list_ends(listing, steps, at - 1);
        assert(listing.follows(steps[at - 1], steps[at]));
    }
}

/// A rating that is brought up to date: of which business, and what comes of everything that is
/// done outside.
pub struct RatingRun {
    pub business_id: String,
    pub id: Result<String, AppError>,
    pub items: Result<Vec<Value>, anyhow::Error>,
    pub rows: Result<Vec<Value>, anyhow::Error>,
    pub average: u64,
    pub now: Timestamp,
    pub updated: Result<(), anyhow::Error>,
}

impl RatingRun {
    /// One step comes next after another.
    pub open spec fn follows(self, step: RatingStep, next: RatingStep) -> bool {
        match step {
            RatingStep::CheckId(state, _) => state.leads_to(self.id, next),
            RatingStep::Refresh(state, _) => state.leads_to(self.items, next),
            RatingStep::SelectRatings(state, _) => state.leads_to(self.rows, next),
            RatingStep::Average(state, _) => state.leads_to(self.average, next),
            RatingStep::ReadClock(state) => state.leads_to(self.now, next),
            RatingStep::UpdateBusiness(state, _) => state.leads_to(self.updated, next),
            RatingStep::Done(_) => false,
        }
    }

    /// These are the steps, up to one of them.
    pub open spec fn takes(self, steps: Seq<RatingStep>) -> bool {
        &&& steps.len() > 0
        &&& steps[0] matches RatingStep::CheckId(_, check)
        &&& check.id == self.business_id
        &&& forall|i: int|
            #![trigger steps[i]]
            0 < i < steps.len() ==> self.follows(steps[i - 1], steps[i])
    }

    /// The database has no function that brings a rating up to date, and says so.
    pub open spec fn lacks_function(self) -> bool {
        &&& self.items matches Err(error)
        &&& exists|message: Seq<char>| #[trigger] prints(error, message) && rpc_unavailable(message)
    }

    /// The rating of a business with these reviews: their average, and none where there are none.
    pub open spec fn rating(self, rows: Seq<Value>) -> Json {
        if rows.len() == 0 {
            Json::Null
        } else {
            double_json(self.average)
        }
    }

    /// What has been done, and what has come of it, by the time a step is taken.
    pub open spec fn accounts_for(self, step: RatingStep) -> bool {
        match step {
            RatingStep::CheckId(_, check) => check.id == self.business_id,
            RatingStep::Refresh(state, call) => {
                &&& self.id == Ok::<String, AppError>(state.business_id)
                &&& call.arguments@ == Json::Object(
                    map!["p_business_id"@ => Json::String(state.business_id@)],
                )
            },
            RatingStep::SelectRatings(state, query) => {
                &&& self.id matches Ok(id)
                &&& self.lacks_function()
                &&& state.business_id@ == id@
                &&& query@ == ratings_of(id@)
            },
            RatingStep::Average(state, request) => {
                &&& self.id matches Ok(id)
                &&& self.lacks_function()
                &&& state.business_id@ == id@
                &&& self.rows matches Ok(rows)
                &&& rows@.len() > 0
                &&& state.count == rows@.len()
                &&& request.ratings@ == ratings_in(rows@)
                &&& request.count == rows@.len()
            },
            RatingStep::ReadClock(state) => {
                &&& self.id matches Ok(id)
                &&& self.lacks_function()
                &&& state.business_id@ == id@
                &&& self.rows matches Ok(rows)
                &&& state.count == rows@.len()
                &&& state.rating@ == self.rating(rows@)
            },
            RatingStep::UpdateBusiness(_, update) => {
                &&& self.id matches Ok(id)
                &&& self.lacks_function()
                &&& self.rows matches Ok(rows)
                &&& update.rows@.table == "businesses"@
                &&& update.rows@.params == seq![ParamView::Eq("id"@, id@)]
                &&& update.members@ == review_summary(
                    self.rating(rows@),
                    rows@.len() as u64,
                    self.now,
                )
            },
            RatingStep::Done(Ok(())) => {
                &&& self.id is Ok
                &&& {
                    ||| self.items matches Ok(items) && items@.len() > 0
                    ||| self.lacks_function() && self.rows is Ok && self.updated is Ok
                }
            },
            RatingStep::Done(Err(error)) => self.fails_with(error),
        }
    }

    /// The rating is not brought up to date, and this is why: what fails first names the failure.
    pub open spec fn fails_with(self, error: AppError) -> bool {
        if self.id is Err {
            error == self.id->Err_0
        } else {
            match self.items {
                Ok(items) => items@.len() == 0 && error@ == Failure::Untyped(
                    "Business not found"@,
                ),
                Err(cause) => {
                    ||| error == AppError::Other(cause) && exists|message: Seq<char>|
                        #[trigger] prints(cause, message) && !rpc_unavailable(message)
                    ||| self.lacks_function() && match self.rows {
                        Ok(_) => self.updated matches Err(cause) && error == AppError::Other(
                            cause,
                        ),
                        Err(cause) => error == AppError::Other(cause),
                    }
                },
            }
        }
    }
}

/// The average of the ratings of a business is taken here only when the database has no function
/// for it; any other failure of the database is one of the whole. What is written then is the
/// number of all reviews, and no rating where there is none.
pub proof fn law_rating(run: RatingRun, steps: Seq<RatingStep>, at: int)
    requires
        run.takes(steps),
        0 <= at < steps.len(),
    ensures
        run.accounts_for(steps[at]),
    decreases at,
{
    if at > 0 {
        law_rating(run, steps, at - 1);
        assert(run.follows(steps[at - 1], steps[at]));
    }
}

/// How many steps come before a step at most.
pub open spec fn place_in_rating(step: RatingStep) -> int {
    match step {
        RatingStep::CheckId(_, _) => 0,
        RatingStep::Refresh(_, _) => 1,
        RatingStep::SelectRatings(_, _) => 2,
        RatingStep::Average(_, _) => 3,
        RatingStep::ReadClock(_) => 4,
        RatingStep::UpdateBusiness(_, _) => 5,
        RatingStep::Done(_) => 6,
    }
}

/// Bringing a rating up to date comes to its end after six steps at most.
pub proof fn law_rating_ends(run: RatingRun, steps: Seq<RatingStep>, at: int)
    requires
        run.takes(steps),
        0 <= at < steps.len(),
    ensures
        at <= place_in_rating(steps[at]) <= 6,
    decreases at,
{
    if at > 0 {
        law_rating_ends(run, steps, at - 1);
        assert(run.follows(steps[at - 1], steps[at]));
    }
}

} // verus!
