//! The rating of a business, kept up to date with its reviews, as a sequence of steps.

use crate::backend::{Param, ParamView, Query, QueryView, RpcCall, Update};
use crate::clock::{rfc3339_text, Timestamp};
use crate::errors::{prints, AppError, Failure};
use crate::models::IdCheck;
use crate::rating::{double_json, double_value};
use crate::reviews::{review_summary_rpc_unavailable, rpc_unavailable};
use crate::value::{Json, Number, Object, Value};
use vstd::prelude::*;

verus! {

/// What is to be done next when the rating of a business is brought up to date.
#[derive(Debug)]
pub enum RatingStep {
    /// Check that this is an id.
    CheckId(RatingId, IdCheck),
    /// Have the database do it; the outcome is the items that the call gives back.
    Refresh(RatingRefresh, RpcCall),
    /// Select the ratings.
    SelectRatings(RatingRows, Query),
    /// Divide the sum of the ratings by the count; the outcome is the bit pattern of a double.
    Average(RatingAverage, AverageRequest),
    /// Tell the time.
    ReadClock(RatingClock),
    /// Change the business.
    UpdateBusiness(RatingSave, Update),
    /// The outcome.
    Done(Result<(), AppError>),
}

/// The ratings to be added up, and the count, which is not zero, to divide their sum by.
#[derive(Debug)]
pub struct AverageRequest {
    pub ratings: Vec<Number>,
    pub count: u64,
}

/// A rating whose business has its id checked.
#[derive(Debug)]
pub struct RatingId;

/// A rating that the database is bringing up to date.
#[derive(Debug)]
pub struct RatingRefresh {
    pub business_id: String,
}

/// A rating of which the single ones are being selected.
#[derive(Debug)]
pub struct RatingRows {
    pub business_id: String,
}

/// A rating of which the average is being taken.
#[derive(Debug)]
pub struct RatingAverage {
    pub business_id: String,
    pub count: u64,
}

/// A rating for which the time is being told: what it is, and of how many reviews.
#[derive(Debug)]
pub struct RatingClock {
    pub business_id: String,
    pub rating: Value,
    pub count: u64,
}

/// A rating that is being written.
#[derive(Debug)]
pub struct RatingSave;

/// Begins to bring the rating of a business up to date.
pub fn update_business_rating(business_id: String) -> (step: RatingStep)
    ensures
        step matches RatingStep::CheckId(next, check) && {
            &&& check.id == business_id
            &&& check.label@ == "business ID"@
        },
{
    RatingStep::CheckId(RatingId, IdCheck { id: business_id, label: "business ID" })
}

/// The call that has the database bring the rating of a business up to date.
pub fn refresh_business_review_summary(business_id: &str) -> (call: RpcCall)
    ensures
        call.function@ == "refresh_business_review_summary"@,
        call.arguments@ == Json::Object(map!["p_business_id"@ => Json::String(business_id@)]),
{
    RpcCall {
        function: "refresh_business_review_summary",
        arguments: Value::Object(Object::new().insert("p_business_id", Value::text(business_id))),
    }
}

impl RatingId {
    /// The step that follows on an outcome.
    pub open spec fn leads_to(self, id: Result<String, AppError>, step: RatingStep) -> bool {
        match id {
            Ok(id) => {
                &&& step matches RatingStep::Refresh(next, call)
                &&& next.business_id == id
                &&& call.function@ == "refresh_business_review_summary"@
                &&& call.arguments@ == Json::Object(
                    map!["p_business_id"@ => Json::String(id@)],
                )
            },
            Err(error) => step == RatingStep::Done(Err(error)),
        }
    }

    /// Goes on with the checked id.
    pub fn resume(self, id: Result<String, AppError>) -> (step: RatingStep)
        ensures
            self.leads_to(id, step),
    {
        match id {
            Ok(id) => {
                let call = refresh_business_review_summary(id.as_str());
                RatingStep::Refresh(RatingRefresh { business_id: id }, call)
            },
            Err(error) => RatingStep::Done(Err(error)),
        }
    }
}

/// The ratings of a business, one row for each review.
pub open spec fn ratings_of(business_id: Seq<char>) -> QueryView {
    QueryView {
        table: "reviews"@,
        params: seq![
            ParamView::Select("rating"@),
            ParamView::Eq("business_id"@, business_id),
        ],
    }
}

/// The step that begins to do here what the database could not.
pub open spec fn fallback(business_id: Seq<char>, step: RatingStep) -> bool {
    &&& step matches RatingStep::SelectRatings(next, query)
    &&& next.business_id@ == business_id
    &&& query@ == ratings_of(business_id)
}

/// The step that follows when the database could not do it, by the message it gave.
pub open spec fn refresh_failed(
    business_id: Seq<char>,
    error: AppError,
    message: Seq<char>,
    step: RatingStep,
) -> bool {
    if rpc_unavailable(message) {
        fallback(business_id, step)
    } else {
        step == RatingStep::Done(Err(error))
    }
}

/// Begins to take the average of the ratings of a business here.
pub fn update_business_rating_fallback(business_id: String) -> (step: RatingStep)
    ensures
        fallback(business_id@, step),
{
    let query = Query::new("reviews", Param::Select("rating")).and(
        Param::Eq("business_id", business_id.clone()),
    );
    assert(query@.params =~= ratings_of(business_id@).params);
    RatingStep::SelectRatings(RatingRows { business_id }, query)
}

/// The message that a refresh ends with when it finds no business speaks of the business, not
/// of a missing function.
proof fn lemma_no_business_is_no_missing_function()
    ensures
        !rpc_unavailable("Business not found"@),
{
    let message = "Business not found"@;
    let lowered = crate::text::ascii_lowered(message);
    reveal_strlit("Business not found");
    reveal_strlit("refresh_business_review_summary");
    reveal_strlit("could not find the function");
    reveal_strlit("schema cache");
    assert forall|at: int| !crate::text::occurs_at(lowered, "schema cache"@, at) by {
        if crate::text::occurs_at(lowered, "schema cache"@, at) {
            let part = lowered.subrange(at, at + 12);
            assert(part[0] == 's' && part[1] == 'c');
            assert(lowered[at] == 's' && lowered[at + 1] == 'c');
        }
    }
}

impl RatingRefresh {
    /// The step that follows on an outcome.
    pub open spec fn leads_to(
        self,
        items: Result<Vec<Value>, anyhow::Error>,
        step: RatingStep,
    ) -> bool {
        match items {
            Ok(items) => if items@.len() == 0 {
                &&& step matches RatingStep::Done(Err(error))
                &&& error@ == Failure::Untyped("Business not found"@)
            } else {
                step == RatingStep::Done(Ok(()))
            },
            Err(error) => exists|message: Seq<char>|
                #[trigger] prints(error, message) && refresh_failed(
                    self.business_id@,
                    AppError::Other(error),
                    message,
                    step,
                ),
        }
    }

    /// Goes on with what the database gave back: the items of the call, of which a business
    /// that is there makes one.
    pub fn resume(self, items: Result<Vec<Value>, anyhow::Error>) -> (step: RatingStep)
        ensures
            self.leads_to(items, step),
    {
        match items {
            Ok(items) => if items.is_empty() {
                let message = "Business not found";
                proof {
                    lemma_no_business_is_no_missing_function();
                }
                if review_summary_rpc_unavailable(message) {
                    update_business_rating_fallback(self.business_id)
                } else {
                    RatingStep::Done(Err(AppError::Untyped(message.to_owned())))
                }
            } else {
                RatingStep::Done(Ok(()))
            },
            Err(error) => {
                let message = error.to_string();
                assert(prints(error, message@));
                if review_summary_rpc_unavailable(message.as_str()) {
                    update_business_rating_fallback(self.business_id)
                } else {
                    RatingStep::Done(Err(AppError::Other(error)))
                }
            },
        }
    }
}

/// The rating in a row, where that is a number.
pub open spec fn rating_in(row: Json) -> Option<Number> {
    match row.get("rating"@) {
        Some(Json::Number(number)) => Some(number),
        _ => None,
    }
}

/// The ratings of those rows that have one, in their order.
pub open spec fn ratings_in(rows: Seq<Value>) -> Seq<Number>
    decreases rows.len(),
{
    if rows.len() == 0 {
        Seq::empty()
    } else {
        match rating_in(rows.last()@) {
            Some(number) => ratings_in(rows.drop_last()).push(number),
            None => ratings_in(rows.drop_last()),
        }
    }
}

/// The ratings of those rows that have one, in their order.
pub fn review_ratings(rows: &Vec<Value>) -> (ratings: Vec<Number>)
    ensures
        ratings@ == ratings_in(rows@),
{
    let mut ratings: Vec<Number> = Vec::new();
    for i in 0..rows.len()
        invariant
            ratings@ == ratings_in(rows@.take(i as int)),
    {
        proof {
            assert(rows@.take(i + 1).drop_last() == rows@.take(i as int));
        }
        if let Some(Value::Number(number)) = rows[i].get("rating") {
            ratings.push(*number);
        }
    }
    assert(rows@.take(rows@.len() as int) == rows@);
    ratings
}

impl RatingRows {
    /// The step that follows on an outcome.
    pub open spec fn leads_to(
        self,
        rows: Result<Vec<Value>, anyhow::Error>,
        step: RatingStep,
    ) -> bool {
        match rows {
            Ok(rows) => if rows@.len() == 0 {
                step == RatingStep::ReadClock(
                    RatingClock { business_id: self.business_id, rating: Value::Null, count: 0 },
                )
            } else {
                &&& step matches RatingStep::Average(next, request)
                &&& next.business_id == self.business_id
                &&& next.count == rows@.len()
                &&& request.ratings@ == ratings_in(rows@)
                &&& request.count == rows@.len()
            },
            Err(error) => step == RatingStep::Done(Err(AppError::Other(error))),
        }
    }

    /// Goes on with the rows; without any there is no average to be taken.
    pub fn resume(self, rows: Result<Vec<Value>, anyhow::Error>) -> (step: RatingStep)
        ensures
            self.leads_to(rows, step),
    {
        match rows {
            Ok(rows) => {
                let count = rows.len() as u64;
                if count == 0 {
                    RatingStep::ReadClock(
                        RatingClock { business_id: self.business_id, rating: Value::Null, count },
                    )
                } else {
                    RatingStep::Average(
                        RatingAverage { business_id: self.business_id, count },
                        AverageRequest { ratings: review_ratings(&rows), count },
                    )
                }
            },
            Err(error) => RatingStep::Done(Err(AppError::Other(error))),
        }
    }
}

/// What is written into a business: its rating, how many reviews it has, and when that was.
pub open spec fn review_summary(rating: Json, count: u64, now: Timestamp) -> Json {
    Json::Object(
        map![
            "rating"@ => rating,
            "review_count"@ => Json::Number(Number::PosInt(count)),
            "updated_at"@ => Json::String(rfc3339_text(now.secs(), now.nanos()))
        ],
    )
}

impl RatingAverage {
    /// The step that follows on an outcome.
    pub open spec fn leads_to(self, average: u64, step: RatingStep) -> bool {
        step matches RatingStep::ReadClock(next) && {
            &&& next.business_id == self.business_id
            &&& next.rating@ == double_json(average)
            &&& next.count == self.count
        }
    }

    /// Goes on with the average.
    pub fn resume(self, average: u64) -> (step: RatingStep)
        ensures
            self.leads_to(average, step),
    {
        RatingStep::ReadClock(
            RatingClock {
                business_id: self.business_id,
                rating: double_value(average),
                count: self.count,
            },
        )
    }
}

impl RatingClock {
    /// The step that follows on an outcome.
    pub open spec fn leads_to(self, now: Timestamp, step: RatingStep) -> bool {
        step matches RatingStep::UpdateBusiness(next, update) && {
            &&& update.rows@ == (QueryView {
                table: "businesses"@,
                params: seq![ParamView::Eq("id"@, self.business_id@)],
            })
            &&& update.members@ == review_summary(self.rating@, self.count, now)
        }
    }

    /// Goes on with the time.
    pub fn resume(self, now: Timestamp) -> (step: RatingStep)
        ensures
            self.leads_to(now, step),
    {
        let members = Value::Object(
            Object::new().insert("rating", self.rating).insert(
                "review_count",
                Value::Number(Number::PosInt(self.count)),
            ).insert("updated_at", Value::String(now.to_rfc3339())),
        );
        RatingStep::UpdateBusiness(
            RatingSave,
            Update {
                rows: Query::new("businesses", Param::Eq("id", self.business_id)),
                members,
            },
        )
    }
}

impl RatingSave {
    /// The step that follows on an outcome.
    pub open spec fn leads_to(self, updated: Result<(), anyhow::Error>, step: RatingStep) -> bool {
        match updated {
            Ok(()) => step == RatingStep::Done(Ok(())),
            Err(error) => step == RatingStep::Done(Err(AppError::Other(error))),
        }
    }

    /// Ends with whether the business was changed.
    pub fn resume(self, updated: Result<(), anyhow::Error>) -> (step: RatingStep)
        ensures
            self.leads_to(updated, step),
    {
        match updated {
            Ok(()) => RatingStep::Done(Ok(())),
            Err(error) => RatingStep::Done(Err(AppError::Other(error))),
        }
    }
}

} // verus!
