//! Reviews of businesses.

use crate::backend::{Param, ParamView, Query, QueryView, RateCheck};
use crate::clock::{rfc3339_text, Timestamp, FIRST_SECOND};
use crate::errors::{prints, AppError, Failure};
use crate::metadata::{text_or_empty, value_str};
use crate::models::AuthUser;
use crate::text::{ascii_lowered, contains, occurs, same, to_ascii_lowercase};
use crate::value::Value;
use vstd::prelude::*;

verus! {

/// The message says that the database has no function that refreshes the review summary.
pub open spec fn rpc_unavailable(message: Seq<char>) -> bool {
    let lowered = ascii_lowered(message);
    ||| occurs(lowered, "refresh_business_review_summary"@) && occurs(lowered, "does not exist"@)
    ||| occurs(lowered, "could not find the function"@)
    ||| occurs(lowered, "schema cache"@)
}

/// Whether a message says that the database has no function that refreshes the review summary.
pub fn review_summary_rpc_unavailable(message: &str) -> (unavailable: bool)
    ensures
        unavailable == rpc_unavailable(message@),
{
    let lowered = to_ascii_lowercase(message);
    let lowered = lowered.as_str();
    (contains(lowered, "refresh_business_review_summary") && contains(lowered, "does not exist"))
        || contains(lowered, "could not find the function") || contains(lowered, "schema cache")
}

/// The message says that a review of the same user and business is there already.
pub open spec fn is_duplicate(message: Seq<char>) -> bool {
    occurs(ascii_lowered(message), "duplicate"@) || occurs(ascii_lowered(message), "unique"@)
}

/// Whether a message says that a review of the same user and business is there already.
pub fn duplicate_review(message: &str) -> (duplicate: bool)
    ensures
        duplicate == is_duplicate(message@),
{
    let lowered = to_ascii_lowercase(message);
    contains(lowered.as_str(), "duplicate") || contains(lowered.as_str(), "unique")
}

/// `failure` is what a failed insert of a review means, by something that `error` may print.
pub open spec fn insert_failure_of(error: anyhow::Error, failure: Failure) -> bool {
    exists|message: Seq<char>|
        #[trigger] prints(error, message) && failure == if is_duplicate(message) {
            Failure::Conflict("You have already reviewed this business"@)
        } else {
            Failure::Other(error)
        }
}

/// The failure that a failed insert of a review means.
pub fn map_review_insert_error(err: anyhow::Error) -> (failure: AppError)
    ensures
        insert_failure_of(err, failure@),
{
    let message = err.to_string();
    assert(prints(err, message@));
    if duplicate_review(message.as_str()) {
        AppError::Conflict("You have already reviewed this business".to_owned())
    } else {
        AppError::Other(err)
    }
}

/// Refuses the owner of a business.
pub fn ensure_not_owned_business_review(
    business: &Value,
    auth_user: &AuthUser,
) -> (result: Result<(), AppError>)
    ensures
        match result {
            Ok(()) => text_or_empty(business@, "owner_id"@) != auth_user.id@,
            Err(error) => text_or_empty(business@, "owner_id"@) == auth_user.id@ && error@
                == Failure::Forbidden("Business owners cannot review their own listing"@),
        },
{
    if same(value_str(business, "owner_id"), auth_user.id.as_str()) {
        Err(AppError::Forbidden("Business owners cannot review their own listing".to_owned()))
    } else {
        Ok(())
    }
}

/// How many reviews a user may write, or changes of one review it may make, in an hour.
pub const HOURLY_LIMIT: u32 = 8;

/// The seconds of an hour.
pub const HOUR: u32 = 3600;

/// The reviews that a user wrote in the hour before a point in time.
pub open spec fn recent_reviews(now: Timestamp, user_id: Seq<char>) -> QueryView {
    QueryView {
        table: "reviews"@,
        params: seq![
            ParamView::Eq("user_id"@, user_id),
            ParamView::Gte("created_at"@, rfc3339_text((now.secs() - HOUR) as i64, now.nanos())),
        ],
    }
}

/// The reviews that are counted before a user may write another one.
pub fn ensure_review_rate_allowed(now: Timestamp, user_id: &str) -> (query: Query)
    requires
        FIRST_SECOND <= now.secs() - HOUR,
    ensures
        query@ == recent_reviews(now, user_id@),
{
    let since = now.before(HOUR).to_rfc3339();
    let query = Query::new("reviews", Param::Eq("user_id", user_id.to_owned())).and(
        Param::Gte("created_at", since),
    );
    assert(query@.params =~= recent_reviews(now, user_id@).params);
    query
}

/// Refuses another review where the count has reached the limit.
pub fn review_rate_allowed(recent: Result<i64, anyhow::Error>) -> (result: Result<(), AppError>)
    ensures
        match recent {
            Ok(count) => if count >= 8 {
                result == Err::<(), AppError>(AppError::RateLimited)
            } else {
                result == Ok::<(), AppError>(())
            },
            Err(error) => result == Err::<(), AppError>(AppError::Other(error)),
        },
{
    match recent {
        Ok(count) => if count >= HOURLY_LIMIT as i64 {
            Err(AppError::RateLimited)
        } else {
            Ok(())
        },
        Err(error) => Err(AppError::Other(error)),
    }
}

/// The key under which changes of a review by a user are counted.
pub open spec fn update_key(user_id: Seq<char>, review_id: Seq<char>) -> Seq<char> {
    "review-update:"@ + user_id + ":"@ + review_id
}

/// The question whether a user may change a review once more.
pub fn ensure_review_update_rate_allowed(user_id: &str, review_id: &str) -> (check: RateCheck)
    ensures
        check.key@ == update_key(user_id@, review_id@),
        check.limit == 8,
        check.window_secs == 3600,
{
    let key = "review-update:".to_owned().concat(user_id).concat(":").concat(review_id);
    RateCheck { key, limit: HOURLY_LIMIT, window_secs: HOUR as u64 }
}

/// Refuses a change where it is not allowed.
pub fn review_update_rate_allowed(allowed: bool) -> (result: Result<(), AppError>)
    ensures
        result == if allowed {
            Ok::<(), AppError>(())
        } else {
            Err(AppError::RateLimited)
        },
{
    if allowed {
        Ok(())
    } else {
        Err(AppError::RateLimited)
    }
}

} // verus!
