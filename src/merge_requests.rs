//! Merge requests of one project: `GET /projects/ID/merge_requests`, with
//! the filters `iid`, `state`, `order_by` and `sort`.

use vstd::prelude::*;
use vstd::string::*;

use crate::listing::{
    encode_query, int_text, int_to_text, join_params, pair_text, push_int, push_param,
    push_sort_param, sort_param, views, with_query, ListingSort,
};

verus! {

/// State of a merge request, and the state filter of a listing.
#[derive(Debug, Clone, Copy, PartialEq, Eq, Structural)]
pub enum State {
    Merged,
    Opened,
    Closed,
    All,
}

/// Whether a merge request can be merged.
#[derive(Debug, Clone, Copy, PartialEq, Eq, Structural)]
pub enum Status {
    CanBeMerged,
    CannotBeMerged,
    Unchecked,
}

/// Field by which merge requests are ordered.
#[derive(Debug, Clone, Copy, PartialEq, Eq, Structural)]
pub enum ListingOrderBy {
    CreatedAt,
    UpdatedAt,
}

pub open spec fn state_text(s: State) -> Seq<char> {
    match s {
        State::Merged => "merged"@,
        State::Opened => "opened"@,
        State::Closed => "closed"@,
        State::All => "all"@,
    }
}

pub open spec fn order_by_text(o: ListingOrderBy) -> Seq<char> {
    match o {
        ListingOrderBy::CreatedAt => "created_at"@,
        ListingOrderBy::UpdatedAt => "updated_at"@,
    }
}

impl State {
    pub fn as_str(&self) -> (r: &'static str)
        ensures
            r@ == state_text(*self),
    {
        match self {
            State::Merged => "merged",
            State::Opened => "opened",
            State::Closed => "closed",
            State::All => "all",
        }
    }
}

impl ListingOrderBy {
    pub fn as_str(&self) -> (r: &'static str)
        ensures
            r@ == order_by_text(*self),
    {
        match self {
            ListingOrderBy::CreatedAt => "created_at",
            ListingOrderBy::UpdatedAt => "updated_at",
        }
    }
}

pub open spec fn state_param(value: Option<State>) -> Seq<Seq<char>> {
    match value {
        Some(s) => seq![pair_text("state"@, state_text(s))],
        None => seq![],
    }
}

pub open spec fn order_by_param(value: Option<ListingOrderBy>) -> Seq<Seq<char>> {
    match value {
        Some(o) => seq![pair_text("order_by"@, order_by_text(o))],
        None => seq![],
    }
}

/// One `iid[]=v` parameter per value, in the given order.
pub open spec fn iid_array_params(iids: Seq<i64>) -> Seq<Seq<char>> {
    iids.map_values(|v: i64| pair_text("iid[]"@, int_text(v as int)))
}

/// The `iid` parameters: `iid=v` for a single value, `iid[]=v` repeated for
/// several, nothing for none.
pub open spec fn iid_params(value: Option<Seq<i64>>) -> Seq<Seq<char>> {
    match value {
        Some(iids) => if iids.len() == 1 {
            seq![pair_text("iid"@, int_text(iids[0] as int))]
        } else {
            iid_array_params(iids)
        },
        None => seq![],
    }
}

/// `projects/ID/merge_requests`.
pub open spec fn merge_requests_path(project_id: i64) -> Seq<char> {
    "projects/"@ + int_text(project_id as int) + "/merge_requests"@
}

/// A merge request, with the fields that this library reads.
#[derive(Debug, Clone)]
pub struct MergeRequest {
    pub id: i64,
    pub iid: i64,
    pub project_id: i64,
    pub title: String,
    pub description: String,
    pub state: State,
    pub created_at: String,
    pub updated_at: String,
    pub target_branch: String,
    pub source_branch: String,
    pub upvotes: i64,
    pub downvotes: i64,
    pub source_project_id: i64,
    pub target_project_id: i64,
    pub labels: Vec<String>,
    pub work_in_progress: bool,
    pub merge_when_build_succeeds: bool,
    pub merge_status: Option<Status>,
    pub sha: Option<String>,
    pub merge_commit_sha: Option<String>,
    pub subscribed: Option<bool>,
    pub user_notes_count: Option<i64>,
    pub should_remove_source_branch: Option<bool>,
    pub force_remove_source_branch: Option<bool>,
    pub web_url: Option<String>,
}

/// Filters of the merge requests of one project. The project is fixed when
/// the lister is made.
#[derive(Debug, Clone)]
pub struct MergeRequestsLister {
    /// The project whose merge requests are listed; no setter changes it.
    pub id: i64,
    /// Only the merge requests with these `iid`s.
    pub iid: Option<Vec<i64>>,
    /// Only the merge requests in this state.
    pub state: Option<State>,
    /// Order of the results; the server's default is by creation date.
    pub order_by: Option<ListingOrderBy>,
    /// Sort direction; the server's default is descending.
    pub sort: Option<ListingSort>,
}

impl MergeRequestsLister {
    pub open spec fn iid_view(&self) -> Option<Seq<i64>> {
        match self.iid {
            Some(v) => Some(v@),
            None => None,
        }
    }

    /// The query parameters, in the order of the resource's schema.
    pub open spec fn params(&self) -> Seq<Seq<char>> {
        iid_params(self.iid_view()) + state_param(self.state) + order_by_param(self.order_by)
            + sort_param(self.sort)
    }

    /// The query that `build_query` produces.
    pub open spec fn query(&self) -> Seq<char> {
        with_query(merge_requests_path(self.id), self.params())
    }

    /// A lister of the merge requests of project `id`, with no filter set.
    pub fn new(id: i64) -> (r: MergeRequestsLister)
        ensures
            r.id == id,
            r.iid.is_none(),
            r.state.is_none(),
            r.order_by.is_none(),
            r.sort.is_none(),
    {
        MergeRequestsLister { id, iid: None, state: None, order_by: None, sort: None }
    }

    pub fn iid(self, iid: Vec<i64>) -> (r: MergeRequestsLister)
        ensures
            r.id == self.id,
            r.iid_view() == Some(iid@),
            r.state == self.state,
            r.order_by == self.order_by,
            r.sort == self.sort,
    {
        MergeRequestsLister { iid: Some(iid), ..self }
    }

    pub fn state(self, state: State) -> (r: MergeRequestsLister)
        ensures
            r.id == self.id,
            r.iid_view() == self.iid_view(),
            r.state == Some(state),
            r.order_by == self.order_by,
            r.sort == self.sort,
    {
        MergeRequestsLister { state: Some(state), ..self }
    }

    pub fn order_by(self, order_by: ListingOrderBy) -> (r: MergeRequestsLister)
        ensures
            r.id == self.id,
            r.iid_view() == self.iid_view(),
            r.state == self.state,
            r.order_by == Some(order_by),
            r.sort == self.sort,
    {
        MergeRequestsLister { order_by: Some(order_by), ..self }
    }

    pub fn sort(self, sort: ListingSort) -> (r: MergeRequestsLister)
        ensures
            r.id == self.id,
            r.iid_view() == self.iid_view(),
            r.state == self.state,
            r.order_by == self.order_by,
            r.sort == Some(sort),
    {
        MergeRequestsLister { sort: Some(sort), ..self }
    }

    /// `projects/ID/merge_requests`, followed by the parameters that are
    /// set, in schema order.
    pub fn build_query(&self) -> (r: String)
        ensures
            r@ == self.query(),
    {
        let mut params: Vec<String> = Vec::new();
        if let Some(iids) = &self.iid {
            if iids.len() == 1 {
                let v = int_to_text(iids[0]);
                push_param(&mut params, "iid", v.as_str());
            } else {
                let n = iids.len();
                let mut i: usize = 0;
                while i < n
                    invariant
                        n == iids@.len(),
                        0 <= i <= n,
                        views(params@) == iid_array_params(iids@.subrange(0, i as int)),
                    decreases n - i,
                {
                    let v = int_to_text(iids[i]);
                    push_param(&mut params, "iid[]", v.as_str());
                    assert(iids@.subrange(0, i + 1) =~= iids@.subrange(0, i as int).push(iids@[i as int]));
                    assert(iid_array_params(iids@.subrange(0, i + 1)) =~= iid_array_params(iids@.subrange(0, i as int)).push(pair_text("iid[]"@, int_text(iids@[i as int] as int))));
                    i = i + 1;
                }
                assert(iids@.subrange(0, n as int) =~= iids@);
            }
        }
        let ghost iid_part = iid_params(self.iid_view());
        assert(views(params@) =~= iid_part);
        if let Some(s) = self.state {
            push_param(&mut params, "state", s.as_str());
        }
        assert(views(params@) =~= iid_part + state_param(self.state));
        if let Some(o) = self.order_by {
            push_param(&mut params, "order_by", o.as_str());
        }
        assert(views(params@) =~= iid_part + state_param(self.state) + order_by_param(self.order_by));
        push_sort_param(&mut params, self.sort);
        assert(views(params@) =~= self.params());
        let mut path = String::from_str("projects/");
        push_int(&mut path, self.id);
        path.append("/merge_requests");
        encode_query(path.as_str(), &params)
    }
}

/// One filter of a merge request lister, as its setter sets it.
pub enum Filter {
    Iid(Vec<i64>),
    State(State),
    OrderBy(ListingOrderBy),
    Sort(ListingSort),
}

/// Which field a filter sets.
pub open spec fn filter_field(f: Filter) -> nat {
    match f {
        Filter::Iid(_) => 0,
        Filter::State(_) => 1,
        Filter::OrderBy(_) => 2,
        Filter::Sort(_) => 3,
    }
}

/// The lister after the setter of `f`.
pub open spec fn with_filter(l: MergeRequestsLister, f: Filter) -> MergeRequestsLister {
    match f {
        Filter::Iid(v) => MergeRequestsLister { iid: Some(v), ..l },
        Filter::State(s) => MergeRequestsLister { state: Some(s), ..l },
        Filter::OrderBy(o) => MergeRequestsLister { order_by: Some(o), ..l },
        Filter::Sort(s) => MergeRequestsLister { sort: Some(s), ..l },
    }
}

/// The query does not depend on the order in which two different filters
/// were set: its keys always come in the order of the schema.
pub proof fn lemma_filter_order_irrelevant(l: MergeRequestsLister, f: Filter, g: Filter)
    requires
        filter_field(f) != filter_field(g),
    ensures
        with_filter(with_filter(l, f), g).query() == with_filter(with_filter(l, g), f).query(),
{
    assert(with_filter(with_filter(l, f), g) == with_filter(with_filter(l, g), f));
}

/// A lister with no filter set queries the bare path, with no `?`.
pub proof fn lemma_no_filter_bare_path(l: MergeRequestsLister)
    requires
        l.iid is None,
        l.state is None,
        l.order_by is None,
        l.sort is None,
    ensures
        l.query() == merge_requests_path(l.id),
{
    assert(l.params() =~= Seq::<Seq<char>>::empty());
}

/// With only `iid` set: one value gives `iid=v`; two or more give
/// `iid[]=v` for each value, in the given order, joined by `&`.
pub proof fn lemma_iid_encoding(l: MergeRequestsLister, iids: Seq<i64>)
    requires
        l.iid_view() == Some(iids),
        iids.len() >= 1,
        l.state is None,
        l.order_by is None,
        l.sort is None,
    ensures
        iids.len() == 1 ==> l.query() == merge_requests_path(l.id) + "?iid="@ + int_text(iids[0] as int),
        iids.len() >= 2 ==> l.query() == merge_requests_path(l.id) + seq!['?'] + join_params(
            iid_array_params(iids),
        ),
        iids.len() >= 2 ==> forall|i: int| 0 <= i < iids.len() ==> #[trigger] iid_array_params(iids)[i]
            == "iid[]="@ + int_text(iids[i] as int),
{
    assert(l.params() =~= iid_params(Some(iids)));
    if iids.len() == 1 {
        proof_literal_iid();
        assert(join_params(l.params()) == pair_text("iid"@, int_text(iids[0] as int)));
        assert(l.query() =~= merge_requests_path(l.id) + "?iid="@ + int_text(iids[0] as int));
    }
    if iids.len() >= 2 {
        proof_literal_iid_array();
        assert forall|i: int| 0 <= i < iids.len() implies #[trigger] iid_array_params(iids)[i]
            == "iid[]="@ + int_text(iids[i] as int) by {
            assert(pair_text("iid[]"@, int_text(iids[i] as int)) =~= "iid[]="@ + int_text(iids[i] as int));
        }
    }
}

proof fn proof_literal_iid()
    ensures
        "?iid="@ == seq!['?'] + "iid"@ + seq!['='],
{
    reveal_strlit("?iid=");
    reveal_strlit("iid");
    assert("?iid="@ =~= seq!['?'] + "iid"@ + seq!['=']);
}

proof fn proof_literal_iid_array()
    ensures
        "iid[]="@ == "iid[]"@ + seq!['='],
{
    reveal_strlit("iid[]=");
    reveal_strlit("iid[]");
    assert("iid[]="@ =~= "iid[]"@ + seq!['=']);
}

} // verus!
