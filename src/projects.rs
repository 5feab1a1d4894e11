//! Project listings: `GET /projects`, with the filters `archived`,
//! `visibility`, `order_by`, `sort`, `search` and `simple`.

use vstd::prelude::*;
use vstd::string::*;

use crate::listing::{
    bool_param, encode_query, pair_text, push_bool_param, push_param, push_sort_param,
    push_visibility_param, sort_param, views, visibility_param, with_query, ListingSort,
    ListingVisibility,
};

pub mod id;
pub mod owned;

verus! {

/// Field by which projects are ordered.
#[derive(Debug, Clone, Copy, PartialEq, Eq, Structural)]
pub enum ListingOrderBy {
    Id,
    Name,
    Path,
    CreatedAt,
    UpdatedAt,
    LastActivityAt,
}

pub open spec fn order_by_text(o: ListingOrderBy) -> Seq<char> {
    match o {
        ListingOrderBy::Id => "id"@,
        ListingOrderBy::Name => "name"@,
        ListingOrderBy::Path => "path"@,
        ListingOrderBy::CreatedAt => "created_at"@,
        ListingOrderBy::UpdatedAt => "updated_at"@,
        ListingOrderBy::LastActivityAt => "last_activity_at"@,
    }
}

pub open spec fn order_by_param(value: Option<ListingOrderBy>) -> Seq<Seq<char>> {
    match value {
        Some(o) => seq![pair_text("order_by"@, order_by_text(o))],
        None => seq![],
    }
}

/// The `search` parameter: none for an empty pattern.
pub open spec fn search_param(search: Seq<char>) -> Seq<Seq<char>> {
    if search.len() == 0 {
        seq![]
    } else {
        seq![pair_text("search"@, search)]
    }
}

impl ListingOrderBy {
    pub fn as_str(&self) -> (r: &'static str)
        ensures
            r@ == order_by_text(*self),
    {
        match self {
            ListingOrderBy::Id => "id",
            ListingOrderBy::Name => "name",
            ListingOrderBy::Path => "path",
            ListingOrderBy::CreatedAt => "created_at",
            ListingOrderBy::UpdatedAt => "updated_at",
            ListingOrderBy::LastActivityAt => "last_activity_at",
        }
    }
}

/// How a single project is addressed: by its id, or by `namespace/name`.
#[derive(Debug, Clone)]
pub enum ListingId {
    Id(i64),
    NamespaceProject(String),
}

/// Filters of a project listing; an unset filter is left out of the query.
#[derive(Debug, Clone)]
pub struct Listing {
    /// Limit by archived status.
    pub archived: Option<bool>,
    /// Limit by visibility.
    pub visibility: Option<ListingVisibility>,
    /// Order of the results; the server's default is by creation date.
    pub order_by: Option<ListingOrderBy>,
    /// Sort direction; the server's default is descending.
    pub sort: Option<ListingSort>,
    /// Only projects matching this pattern; empty means no search.
    pub search: String,
    /// Return only the id, URL, name and path of each project.
    pub simple: Option<bool>,
}

impl Listing {
    /// The query parameters, in the order of the resource's schema.
    pub open spec fn params(&self) -> Seq<Seq<char>> {
        bool_param("archived"@, self.archived) + visibility_param(self.visibility)
            + order_by_param(self.order_by) + sort_param(self.sort) + search_param(self.search@)
            + bool_param("simple"@, self.simple)
    }

    /// The query that `build_query` produces.
    pub open spec fn query(&self) -> Seq<char> {
        with_query("projects"@, self.params())
    }

    /// A listing with no filter set.
    pub fn new() -> (r: Listing)
        ensures
            r.archived.is_none(),
            r.visibility.is_none(),
            r.order_by.is_none(),
            r.sort.is_none(),
            r.search@.len() == 0,
            r.simple.is_none(),
    {
        Listing {
            archived: None,
            visibility: None,
            order_by: None,
            sort: None,
            search: String::new(),
            simple: None,
        }
    }

    pub fn archived(self, archived: bool) -> (r: Listing)
        ensures
            r == (Listing { archived: Some(archived), ..self }),
    {
        Listing { archived: Some(archived), ..self }
    }

    pub fn visibility(self, visibility: ListingVisibility) -> (r: Listing)
        ensures
            r == (Listing { visibility: Some(visibility), ..self }),
    {
        Listing { visibility: Some(visibility), ..self }
    }

    pub fn order_by(self, order_by: ListingOrderBy) -> (r: Listing)
        ensures
            r == (Listing { order_by: Some(order_by), ..self }),
    {
        Listing { order_by: Some(order_by), ..self }
    }

    pub fn sort(self, sort: ListingSort) -> (r: Listing)
        ensures
            r == (Listing { sort: Some(sort), ..self }),
    {
        Listing { sort: Some(sort), ..self }
    }

    pub fn search(self, search: String) -> (r: Listing)
        ensures
            r == (Listing { search, ..self }),
    {
        Listing { search, ..self }
    }

    pub fn simple(self, simple: bool) -> (r: Listing)
        ensures
            r == (Listing { simple: Some(simple), ..self }),
    {
        Listing { simple: Some(simple), ..self }
    }

    /// The listing of the projects that the user owns, with no filter set.
    pub fn owned(self) -> (r: owned::ProjectsLister)
        ensures
            r.archived is None,
            r.visibility is None,
            r.order_by is None,
            r.sort is None,
            r.search is None,
    {
        owned::ProjectsLister::new()
    }

    /// The lister of the single project `id`.
    pub fn id(self, id: ListingId) -> (r: id::ProjectsLister)
        ensures
            r.id == id,
    {
        id::ProjectsLister::new(id)
    }

    /// `projects`, followed by the parameters that are set, in schema order.
    pub fn build_query(&self) -> (r: String)
        ensures
            r@ == self.query(),
    {
        let params = self.param_list();
        encode_query("projects", &params)
    }

    fn param_list(&self) -> (r: Vec<String>)
        ensures
            views(r@) == self.params(),
    {
        let mut params: Vec<String> = Vec::new();
        push_bool_param(&mut params, "archived", self.archived);
        push_visibility_param(&mut params, self.visibility);
        push_order_by_param(&mut params, self.order_by);
        push_sort_param(&mut params, self.sort);
        push_search_param(&mut params, &self.search);
        push_bool_param(&mut params, "simple", self.simple);
        assert(views(params@) =~= self.params());
        params
    }
}

/// Appends `order_by=...` when `value` is set.
pub fn push_order_by_param(params: &mut Vec<String>, value: Option<ListingOrderBy>)
    ensures
        views(final(params)@) == views(old(params)@) + order_by_param(value),
{
    if let Some(o) = value {
        push_param(params, "order_by", o.as_str());
    }
    assert(views(final(params)@) =~= views(old(params)@) + order_by_param(value));
}

fn push_search_param(params: &mut Vec<String>, search: &String)
    ensures
        views(final(params)@) == views(old(params)@) + search_param(search@),
{
    if !search.as_str().is_empty() {
        push_param(params, "search", search.as_str());
    }
    assert(views(final(params)@) =~= views(old(params)@) + search_param(search@));
}

/// One filter of a project listing, as its setter sets it.
pub enum Filter {
    Archived(bool),
    Visibility(ListingVisibility),
    OrderBy(ListingOrderBy),
    Sort(ListingSort),
    Search(String),
    Simple(bool),
}

/// Which field a filter sets.
pub open spec fn filter_field(f: Filter) -> nat {
    match f {
        Filter::Archived(_) => 0,
        Filter::Visibility(_) => 1,
        Filter::OrderBy(_) => 2,
        Filter::Sort(_) => 3,
        Filter::Search(_) => 4,
        Filter::Simple(_) => 5,
    }
}

/// The listing after the setter of `f`.
pub open spec fn with_filter(l: Listing, f: Filter) -> Listing {
    match f {
        Filter::Archived(a) => Listing { archived: Some(a), ..l },
        Filter::Visibility(v) => Listing { visibility: Some(v), ..l },
        Filter::OrderBy(o) => Listing { order_by: Some(o), ..l },
        Filter::Sort(s) => Listing { sort: Some(s), ..l },
        Filter::Search(s) => Listing { search: s, ..l },
        Filter::Simple(b) => Listing { simple: Some(b), ..l },
    }
}

/// The query does not depend on the order in which two different filters
/// were set: its keys always come in the order of the schema.
pub proof fn lemma_filter_order_irrelevant(l: Listing, f: Filter, g: Filter)
    requires
        filter_field(f) != filter_field(g),
    ensures
        with_filter(with_filter(l, f), g).query() == with_filter(with_filter(l, g), f).query(),
{
    assert(with_filter(with_filter(l, f), g) == with_filter(with_filter(l, g), f));
}

/// A listing with no filter set queries the bare path, with no `?`.
pub proof fn lemma_no_filter_bare_path(l: Listing)
    requires
        l.archived is None,
        l.visibility is None,
        l.order_by is None,
        l.sort is None,
        l.search@.len() == 0,
        l.simple is None,
    ensures
        l.query() == "projects"@,
{
    assert(l.params() =~= Seq::<Seq<char>>::empty());
}

} // verus!
