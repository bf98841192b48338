//! What is asked of the database.

use crate::value::Value;
use vstd::prelude::*;

verus! {

/// One condition or setting of a query.
#[derive(Debug)]
pub enum Param {
    /// All columns.
    SelectAll,
    /// One column.
    Select(&'static str),
    /// Rows with this value in a column.
    Eq(&'static str, String),
    /// Rows with this value or a later one in a column.
    Gte(&'static str, String),
    /// The order of the rows.
    Order(&'static str),
    /// The number of rows at most.
    Limit(i64),
    /// The number of rows left out at the start.
    Offset(i64),
}

/// What a [`Param`] says.
pub enum ParamView {
    SelectAll,
    Select(Seq<char>),
    Eq(Seq<char>, Seq<char>),
    Gte(Seq<char>, Seq<char>),
    Order(Seq<char>),
    Limit(i64),
    Offset(i64),
}

impl View for Param {
    type V = ParamView;

    open spec fn view(&self) -> ParamView {
        match self {
            Param::SelectAll => ParamView::SelectAll,
            Param::Select(column) => ParamView::Select(column@),
            Param::Eq(column, value) => ParamView::Eq(column@, value@),
            Param::Gte(column, value) => ParamView::Gte(column@, value@),
            Param::Order(order) => ParamView::Order(order@),
            Param::Limit(count) => ParamView::Limit(*count),
            Param::Offset(count) => ParamView::Offset(*count),
        }
    }
}

/// Rows of a table.
#[derive(Debug)]
pub struct Query {
    pub table: &'static str,
    pub params: Vec<Param>,
}

/// What a [`Query`] says.
pub struct QueryView {
    pub table: Seq<char>,
    pub params: Seq<ParamView>,
}

impl View for Query {
    type V = QueryView;

    open spec fn view(&self) -> QueryView {
        QueryView { table: self.table@, params: self.params@.map_values(|param: Param| param@) }
    }
}

impl Query {
    /// The rows of a table that meet one condition or setting.
    pub fn new(table: &'static str, param: Param) -> (query: Query)
        ensures
            query@ == (QueryView { table: table@, params: seq![param@] }),
    {
        let query = Query { table, params: vec![param] };
        assert(query@.params =~= seq![param@]);
        query
    }

    /// The query with a further condition or setting.
    pub fn and(self, param: Param) -> (query: Query)
        ensures
            query@ == (QueryView { table: self@.table, params: self@.params.push(param@) }),
    {
        let mut params = self.params;
        params.push(param);
        let query = Query { table: self.table, params };
        assert(query@.params =~= self@.params.push(param@));
        query
    }
}

/// A row to be written into a table.
#[derive(Debug)]
pub struct Insert {
    pub table: &'static str,
    pub row: Value,
}

/// Members to be written into the rows of a query.
#[derive(Debug)]
pub struct Update {
    pub rows: Query,
    pub members: Value,
}

/// A call of a function of the database.
#[derive(Debug)]
pub struct RpcCall {
    pub function: &'static str,
    pub arguments: Value,
}

/// A question whether something may be done once more: under which key it is counted, how often
/// it may be done, and in how many seconds.
#[derive(Debug)]
pub struct RateCheck {
    pub key: String,
    pub limit: u32,
    pub window_secs: u64,
}

} // verus!
