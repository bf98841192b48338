//! The reviews of a business, page by page, as a sequence of steps.

use crate::backend::{Param, ParamView, Query, QueryView};
use crate::errors::AppError;
use crate::headers::header_lines;
use crate::models::{IdCheck, Response, ResponseView};
use crate::value::{json_list, Json, Object, Value};
use axum::http::{HeaderMap, HeaderValue};
use vstd::prelude::*;

verus! {

/// How many reviews a page has when nothing is said.
pub const DEFAULT_PAGE: i64 = 20;

/// How many reviews a page has at most.
pub const LARGEST_PAGE: i64 = 100;

/// The part of a list that a request asks for.
#[derive(Debug)]
pub struct PaginationParams {
    pub limit: Option<i64>,
    pub offset: Option<i64>,
    pub cursor: Option<String>,
    pub include_pagination: Option<bool>,
}

/// What is said about a page, and what holds when nothing is said.
#[derive(Debug)]
pub struct WindowRequest {
    pub limit: Option<i64>,
    pub offset: Option<i64>,
    pub cursor: Option<String>,
    pub default_limit: i64,
    pub max_limit: i64,
}

/// A part of a list: how many items, after how many others.
#[derive(Clone, Copy, Debug)]
pub struct Window {
    pub limit: i64,
    pub offset: i64,
}

/// A page, and how many items were found when one more was asked for.
#[derive(Clone, Copy, Debug)]
pub struct PageRequest {
    pub window: Window,
    pub found: usize,
}

/// What is told about a page: everything, by themselves whether there is more and where that
/// begins, and the headers that say it.
#[derive(Debug)]
pub struct PageMeta {
    pub meta: Value,
    pub has_more: bool,
    pub next_cursor: Value,
    pub headers: HeaderMap<HeaderValue>,
}

/// What is to be done next when the reviews of a business are listed.
#[derive(Debug)]
pub enum ListStep {
    /// Check that this is an id.
    CheckId(ListId, IdCheck),
    /// Find out which part of the list is meant.
    FindWindow(ListWindow, WindowRequest),
    /// Select the reviews; the outcome is the rows in the form that is shown.
    Select(ListRows, Query),
    /// Find out what is told about the page.
    DescribePage(ListPage, PageRequest),
    /// Answer.
    Done(Result<Response, AppError>),
}

/// A list whose business has its id checked.
#[derive(Debug)]
pub struct ListId {
    pub params: PaginationParams,
}

/// A list whose part is being found out.
#[derive(Debug)]
pub struct ListWindow {
    pub business_id: String,
    pub include_pagination: bool,
}

/// A list whose rows are being selected.
#[derive(Debug)]
pub struct ListRows {
    pub window: Window,
    pub include_pagination: bool,
}

/// A list whose page is being described.
#[derive(Debug)]
pub struct ListPage {
    pub reviews: Vec<Value>,
    pub limit: i64,
    pub include_pagination: bool,
}

/// Begins to list the reviews of a business.
pub fn list_business_reviews(business_id: String, params: PaginationParams) -> (step: ListStep)
    ensures
        step matches ListStep::CheckId(next, check) && {
            &&& next.params == params
            &&& check.id == business_id
            &&& check.label@ == "business ID"@
        },
{
    ListStep::CheckId(ListId { params }, IdCheck { id: business_id, label: "business ID" })
}

impl ListId {
    /// The step that follows on an outcome.
    pub open spec fn leads_to(self, id: Result<String, AppError>, step: ListStep) -> bool {
        match id {
            Ok(id) => {
                &&& step matches ListStep::FindWindow(next, request)
                &&& next.business_id == id
                &&& next.include_pagination == (self.params.include_pagination == Some(true))
                &&& request.limit == self.params.limit
                &&& request.offset == self.params.offset
                &&& request.cursor == self.params.cursor
                &&& request.default_limit == 20
                &&& request.max_limit == 100
            },
            Err(error) => step == ListStep::Done(Err(error)),
        }
    }

    /// Goes on with the checked id.
    pub fn resume(self, id: Result<String, AppError>) -> (step: ListStep)
        ensures
            self.leads_to(id, step),
    {
        match id {
            Ok(id) => {
                let include_pagination = match self.params.include_pagination {
                    Some(asked) => asked,
                    None => false,
                };
                ListStep::FindWindow(
                    ListWindow { business_id: id, include_pagination },
                    WindowRequest {
                        limit: self.params.limit,
                        offset: self.params.offset,
                        cursor: self.params.cursor,
                        default_limit: DEFAULT_PAGE,
                        max_limit: LARGEST_PAGE,
                    },
                )
            },
            Err(error) => ListStep::Done(Err(error)),
        }
    }
}

/// The reviews of a business, the latest first: those of a page, and one more.
pub open spec fn reviews_of(business_id: Seq<char>, window: Window) -> QueryView {
    QueryView {
        table: "reviews"@,
        params: seq![
            ParamView::SelectAll,
            ParamView::Eq("business_id"@, business_id),
            ParamView::Order("created_at.desc"@),
            ParamView::Limit((window.limit + 1) as i64),
            ParamView::Offset(window.offset),
        ],
    }
}

impl ListWindow {
    /// The step that follows on an outcome.
    pub open spec fn leads_to(self, window: Result<Window, AppError>, step: ListStep) -> bool {
        match window {
            Ok(window) => {
                &&& step matches ListStep::Select(next, query)
                &&& next.window == window
                &&& next.include_pagination == self.include_pagination
                &&& query@ == reviews_of(self.business_id@, window)
            },
            Err(error) => step == ListStep::Done(Err(error)),
        }
    }

    /// Goes on with the part of the list that is meant.
    pub fn resume(self, window: Result<Window, AppError>) -> (step: ListStep)
        requires
            window matches Ok(window) ==> window.limit < i64::MAX,
        ensures
            self.leads_to(window, step),
    {
        match window {
            Ok(window) => {
                let ghost business_id = self.business_id@;
                let query = Query::new("reviews", Param::SelectAll).and(
                    Param::Eq("business_id", self.business_id),
                ).and(Param::Order("created_at.desc")).and(Param::Limit(window.limit + 1)).and(
                    Param::Offset(window.offset),
                );
                assert(query@.params =~= reviews_of(business_id, window).params);
                ListStep::Select(
                    ListRows { window, include_pagination: self.include_pagination },
                    query,
                )
            },
            Err(error) => ListStep::Done(Err(error)),
        }
    }
}

impl ListRows {
    /// The step that follows on an outcome.
    pub open spec fn leads_to(
        self,
        reviews: Result<Vec<Value>, anyhow::Error>,
        step: ListStep,
    ) -> bool {
        match reviews {
            Ok(reviews) => {
                &&& step matches ListStep::DescribePage(next, request)
                &&& next.reviews == reviews
                &&& next.limit == self.window.limit
                &&& next.include_pagination == self.include_pagination
                &&& request.window == self.window
                &&& request.found == reviews@.len()
            },
            Err(error) => step == ListStep::Done(Err(AppError::Other(error))),
        }
    }

    /// Goes on with the rows in the form that is shown.
    pub fn resume(self, reviews: Result<Vec<Value>, anyhow::Error>) -> (step: ListStep)
        ensures
            self.leads_to(reviews, step),
    {
        match reviews {
            Ok(reviews) => {
                let found = reviews.len();
                ListStep::DescribePage(
                    ListPage {
                        reviews,
                        limit: self.window.limit,
                        include_pagination: self.include_pagination,
                    },
                    PageRequest { window: self.window, found },
                )
            },
            Err(error) => ListStep::Done(Err(AppError::Other(error))),
        }
    }
}

/// The items of a page: as many as it has at most, of those that were found.
pub open spec fn page_of(reviews: Seq<Value>, limit: i64) -> Seq<Value> {
    if 0 <= limit < reviews.len() {
        reviews.take(limit as int)
    } else {
        reviews
    }
}

/// The body of the answer: the reviews by themselves, or with what is told about the page.
pub open spec fn list_body(reviews: Seq<Value>, page: PageMeta, include_pagination: bool) -> Json {
    let items = Json::Array(json_list(reviews));
    if include_pagination {
        Json::Object(
            map![
                "items"@ => items,
                "pagination"@ => page.meta@,
                "has_more"@ => Json::Bool(page.has_more),
                "next_cursor"@ => page.next_cursor@
            ],
        )
    } else {
        items
    }
}

impl ListPage {
    /// The step that follows on an outcome.
    pub open spec fn leads_to(self, page: PageMeta, step: ListStep) -> bool {
        step matches ListStep::Done(Ok(response)) && response@ == (ResponseView {
            status: 200,
            headers: header_lines(page.headers),
            body: list_body(page_of(self.reviews@, self.limit), page, self.include_pagination),
        })
    }

    /// Ends with what is told about the page.
    pub fn resume(self, page: PageMeta) -> (step: ListStep)
        ensures
            self.leads_to(page, step),
    {
        let mut reviews = self.reviews;
        if self.limit >= 0 && (self.limit as u64) < reviews.len() as u64 {
            reviews.truncate(self.limit as usize);
        }
        assert(reviews@ =~= page_of(self.reviews@, self.limit));
        let items = Value::Array(reviews);
        let body = if self.include_pagination {
            Value::Object(
                Object::new().insert("items", items).insert("pagination", page.meta).insert(
                    "has_more",
                    Value::Bool(page.has_more),
                ).insert("next_cursor", page.next_cursor),
            )
        } else {
            items
        };
        ListStep::Done(Ok(Response { status: 200, headers: page.headers, body }))
    }
}

} // verus!
