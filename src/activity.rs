use vstd::prelude::*;

use crate::encode::{bool_text, bool_value_text, decimal_of, decimal_text};
use crate::err::JellyfinError;
use crate::request::{matches_plan, opt_text, query_view, Access, ApiRequest, HttpMethod, QueryParam};
use crate::JellyfinClient;

verus! {

/// One entry of the server's activity log.
#[derive(Default, Debug, Clone, PartialEq)]
pub struct ActivityLogEntry {
    pub id: u32,
    pub name: String,
    pub overview: Option<String>,
    pub short_overview: Option<String>,
    pub type_field: String,
    pub item_id: Option<String>,
    pub date: String,
    pub user_id: String,
    pub severity: String,
}

/// A page of the server's activity log.
#[derive(Default, Debug, Clone, PartialEq)]
pub struct ActivityLogEntries {
    pub items: Vec<ActivityLogEntry>,
    pub total_record_count: u32,
    pub start_index: u32,
}

/// A one-pair query where the value is given, an empty one where it is not.
pub open spec fn optional_pair(name: Seq<char>, value: Option<Seq<char>>) -> Seq<(Seq<char>, Seq<char>)> {
    match value {
        Some(v) => seq![(name, v)],
        None => Seq::empty(),
    }
}

/// The decimal text of a number, where there is one.
pub open spec fn optional_decimal(n: Option<u32>) -> Option<Seq<char>> {
    match n {
        Some(k) => Some(decimal_of(k as nat)),
        None => None,
    }
}

/// The query of an activity log listing: the first index, the page size and
/// the earliest date, each only where given, then whether only entries with a
/// user are wanted.
pub open spec fn activity_query(
    start_index: Option<u32>,
    limit: Option<u32>,
    min_date: Option<Seq<char>>,
    has_user_id: bool,
) -> Seq<(Seq<char>, Seq<char>)> {
    optional_pair("startIndex"@, optional_decimal(start_index)) + optional_pair(
        "limit"@,
        optional_decimal(limit),
    ) + optional_pair("minDate"@, min_date) + seq![("hasUserId"@, bool_text(has_user_id))]
}

/// Whether some pair of a query has this name.
pub open spec fn has_param(query: Seq<(Seq<char>, Seq<char>)>, name: Seq<char>) -> bool {
    exists|i: int| 0 <= i < query.len() && #[trigger] query[i].0 == name
}

/// The query parameters of an activity log listing.
pub fn activity_log_query(
    start_index: Option<u32>,
    limit: Option<u32>,
    min_date: &Option<String>,
    has_user_id: bool,
) -> (r: Vec<QueryParam>)
    ensures
        query_view(r@) == activity_query(start_index, limit, opt_text(*min_date), has_user_id),
{
    let mut query: Vec<QueryParam> = Vec::new();
    let ghost mut expected: Seq<(Seq<char>, Seq<char>)> = Seq::empty();
    assert(query_view(query@) =~= expected);
    if let Some(s) = start_index {
        query.push(QueryParam::new("startIndex", decimal_text(s)));
    }
    proof {
        expected = optional_pair("startIndex"@, optional_decimal(start_index));
        assert(query_view(query@) =~= expected);
    }
    if let Some(l) = limit {
        query.push(QueryParam::new("limit", decimal_text(l)));
    }
    proof {
        expected = expected + optional_pair("limit"@, optional_decimal(limit));
        assert(query_view(query@) =~= expected);
    }
    if let Some(d) = min_date {
        query.push(QueryParam::new("minDate", d.clone()));
    }
    proof {
        expected = expected + optional_pair("minDate"@, opt_text(*min_date));
        assert(query_view(query@) =~= expected);
    }
    query.push(QueryParam::new("hasUserId", bool_value_text(has_user_id)));
    assert(query_view(query@) =~= expected + seq![("hasUserId"@, bool_text(has_user_id))]);
    query
}

impl JellyfinClient {
    /// `GET System/ActivityLog/Entries`: a page of the activity log. Filters
    /// left out are left out of the query.
    pub fn get_activity_log_entries(
        &self,
        start_index: Option<u32>,
        limit: Option<u32>,
        min_date: Option<String>,
        has_user_id: bool,
    ) -> (r: Result<ApiRequest, JellyfinError>)
        ensures
            matches_plan(
                &r,
                self.plan(
                    HttpMethod::Get,
                    "System/ActivityLog/Entries"@,
                    activity_query(start_index, limit, opt_text(min_date), has_user_id),
                    None,
                    Access::Token,
                ),
            ),
    {
        let query = activity_log_query(start_index, limit, &min_date, has_user_id);
        self.build_request(HttpMethod::Get, "System/ActivityLog/Entries", &query, None, Access::Token)
    }
}

/// In an activity log listing, each optional filter is in the query exactly
/// when the caller gave it, and the user filter always comes last.
pub proof fn lemma_activity_query_has_only_given_filters(
    start_index: Option<u32>,
    limit: Option<u32>,
    min_date: Option<Seq<char>>,
    has_user_id: bool,
)
    ensures
        has_param(activity_query(start_index, limit, min_date, has_user_id), "startIndex"@)
            <==> start_index is Some,
        has_param(activity_query(start_index, limit, min_date, has_user_id), "limit"@)
            <==> limit is Some,
        has_param(activity_query(start_index, limit, min_date, has_user_id), "minDate"@)
            <==> min_date is Some,
        activity_query(start_index, limit, min_date, has_user_id).last() == ("hasUserId"@, bool_text(
            has_user_id,
        )),
{
    reveal_strlit("startIndex");
    reveal_strlit("limit");
    reveal_strlit("minDate");
    reveal_strlit("hasUserId");
    let a = optional_pair("startIndex"@, optional_decimal(start_index));
    let b = optional_pair("limit"@, optional_decimal(limit));
    let c = optional_pair("minDate"@, min_date);
    let d = seq![("hasUserId"@, bool_text(has_user_id))];
    let q = activity_query(start_index, limit, min_date, has_user_id);
    assert(q == a + b + c + d);
    assert("startIndex"@.len() == 10);
    assert("limit"@.len() == 5);
    assert("minDate"@.len() == 7);
    assert("hasUserId"@.len() == 9);
    assert forall|i: int| 0 <= i < q.len() implies (q[i].0 == "startIndex"@ ==> start_index is Some)
        && (q[i].0 == "limit"@ ==> limit is Some) && (q[i].0 == "minDate"@ ==> min_date is Some) by {
        if i < a.len() {
            assert(q[i] == a[i]);
        } else if i < a.len() + b.len() {
            assert(q[i] == b[i - a.len()]);
        } else if i < a.len() + b.len() + c.len() {
            assert(q[i] == c[i - a.len() - b.len()]);
        } else {
            assert(q[i] == d[i - a.len() - b.len() - c.len()]);
        }
    }
    if start_index is Some {
        assert(q[0].0 == "startIndex"@);
    }
    if limit is Some {
        assert(q[a.len() as int].0 == "limit"@);
    }
    if min_date is Some {
        assert(q[(a.len() + b.len()) as int].0 == "minDate"@);
    }
}

} // verus!
