//! Projects owned by the authenticated user: `GET /projects/owned`, with the
//! filters `archived`, `visibility`, `order_by`, `sort` and `search`.

use vstd::prelude::*;
use vstd::string::*;

use crate::listing::{
    bool_param, encode_query, push_bool_param, push_sort_param, push_visibility_param,
    sort_param, views, visibility_param, with_query, ListingSort, ListingVisibility,
};
use crate::projects::{order_by_param, push_order_by_param, ListingOrderBy};

verus! {

/// What `serde_urlencoded::to_string` makes of the single pair `(key, value)`.
pub uninterp spec fn urlencoded_pair(key: Seq<char>, value: Seq<char>) -> Seq<char>;

/// Relies on `serde_urlencoded::to_string` on a one-element array of string
/// pairs: it writes `key=value` in `application/x-www-form-urlencoded`
/// form. Its pair serializer accepts a string for the key and for the value,
/// so the error arm is never taken.
#[verifier::external_body]
fn encode_pair(key: &str, value: &str) -> (r: String)
    ensures
        r@ == urlencoded_pair(key@, value@),
{
    match serde_urlencoded::to_string([(key, value)]) {
        Ok(s) => s,
        Err(_) => String::new(),
    }
}

/// The `search` parameter, form-encoded: none for an absent or empty pattern.
pub open spec fn search_param(search: Option<Seq<char>>) -> Seq<Seq<char>> {
    match search {
        Some(s) => if s.len() == 0 {
            seq![]
        } else {
            seq![urlencoded_pair("search"@, s)]
        },
        None => seq![],
    }
}

/// Filters of the listing of owned projects; an unset filter is left out.
#[derive(Debug, Clone)]
pub struct ProjectsLister {
    /// Limit by archived status.
    pub archived: Option<bool>,
    /// Limit by visibility.
    pub visibility: Option<ListingVisibility>,
    /// Order of the results; the server's default is by creation date.
    pub order_by: Option<ListingOrderBy>,
    /// Sort direction; the server's default is descending.
    pub sort: Option<ListingSort>,
    /// Only projects matching this pattern.
    pub search: Option<String>,
}

impl ProjectsLister {
    pub open spec fn search_view(&self) -> Option<Seq<char>> {
        match self.search {
            Some(s) => Some(s@),
            None => None,
        }
    }

    /// The query parameters, in the order of the resource's schema.
    pub open spec fn params(&self) -> Seq<Seq<char>> {
        bool_param("archived"@, self.archived) + visibility_param(self.visibility)
            + order_by_param(self.order_by) + sort_param(self.sort)
            + search_param(self.search_view())
    }

    /// The query that `build_query` produces.
    pub open spec fn query(&self) -> Seq<char> {
        with_query("projects/owned"@, self.params())
    }

    /// A lister with no filter set.
    pub fn new() -> (r: ProjectsLister)
        ensures
            r.archived.is_none(),
            r.visibility.is_none(),
            r.order_by.is_none(),
            r.sort.is_none(),
            r.search.is_none(),
    {
        ProjectsLister { archived: None, visibility: None, order_by: None, sort: None, search: None }
    }

    pub fn archived(self, archived: bool) -> (r: ProjectsLister)
        ensures
            r == (ProjectsLister { archived: Some(archived), ..self }),
    {
        ProjectsLister { archived: Some(archived), ..self }
    }

    pub fn visibility(self, visibility: ListingVisibility) -> (r: ProjectsLister)
        ensures
            r == (ProjectsLister { visibility: Some(visibility), ..self }),
    {
        ProjectsLister { visibility: Some(visibility), ..self }
    }

    pub fn order_by(self, order_by: ListingOrderBy) -> (r: ProjectsLister)
        ensures
            r == (ProjectsLister { order_by: Some(order_by), ..self }),
    {
        ProjectsLister { order_by: Some(order_by), ..self }
    }

    pub fn sort(self, sort: ListingSort) -> (r: ProjectsLister)
        ensures
            r == (ProjectsLister { sort: Some(sort), ..self }),
    {
        ProjectsLister { sort: Some(sort), ..self }
    }

    pub fn search(self, search: String) -> (r: ProjectsLister)
        ensures
            r == (ProjectsLister { search: Some(search), ..self }),
    {
        ProjectsLister { search: Some(search), ..self }
    }

    /// `projects/owned`, followed by the parameters that are set, in schema
    /// order; the search pattern is form-encoded.
    pub fn build_query(&self) -> (r: String)
        ensures
            r@ == self.query(),
    {
        let params = self.param_list();
        encode_query("projects/owned", &params)
    }

    fn param_list(&self) -> (r: Vec<String>)
        ensures
            views(r@) == self.params(),
    {
        let mut params: Vec<String> = Vec::new();
        push_bool_param(&mut params, "archived", self.archived);
        push_visibility_param(&mut params, self.visibility);
        push_order_by_param(&mut params, self.order_by);
        push_sort_param(&mut params, self.sort);
        let ghost fixed_part = bool_param("archived"@, self.archived) + visibility_param(self.visibility)
            + order_by_param(self.order_by) + sort_param(self.sort);
        assert(views(params@) =~= fixed_part);
        if let Some(s) = &self.search {
            if !s.as_str().is_empty() {
                let p = encode_pair("search", s.as_str());
                let ghost before = params@;
                params.push(p);
                assert(views(params@) =~= views(before).push(p@));
            }
        }
        assert(views(params@) =~= self.params());
        params
    }
}

/// A lister with no filter set queries the bare path, with no `?`.
pub proof fn lemma_no_filter_bare_path(l: ProjectsLister)
    requires
        l.archived is None,
        l.visibility is None,
        l.order_by is None,
        l.sort is None,
        l.search is None,
    ensures
        l.query() == "projects/owned"@,
{
    assert(l.params() =~= Seq::<Seq<char>>::empty());
}

/// One filter of the listing of owned projects, as its setter sets it.
pub enum Filter {
    Archived(bool),
    Visibility(ListingVisibility),
    OrderBy(ListingOrderBy),
    Sort(ListingSort),
    Search(String),
}

/// Which field a filter sets.
pub open spec fn filter_field(f: Filter) -> nat {
    match f {
        Filter::Archived(_) => 0,
        Filter::Visibility(_) => 1,
        Filter::OrderBy(_) => 2,
        Filter::Sort(_) => 3,
        Filter::Search(_) => 4,
    }
}

/// The lister after the setter of `f`.
pub open spec fn with_filter(l: ProjectsLister, f: Filter) -> ProjectsLister {
    match f {
        Filter::Archived(a) => ProjectsLister { archived: Some(a), ..l },
        Filter::Visibility(v) => ProjectsLister { visibility: Some(v), ..l },
        Filter::OrderBy(o) => ProjectsLister { order_by: Some(o), ..l },
        Filter::Sort(s) => ProjectsLister { sort: Some(s), ..l },
        Filter::Search(s) => ProjectsLister { search: Some(s), ..l },
    }
}

/// The query does not depend on the order in which two different filters
/// were set: its keys always come in the order of the schema.
pub proof fn lemma_filter_order_irrelevant(l: ProjectsLister, f: Filter, g: Filter)
    requires
        filter_field(f) != filter_field(g),
    ensures
        with_filter(with_filter(l, f), g).query() == with_filter(with_filter(l, g), f).query(),
{
    assert(with_filter(with_filter(l, f), g) == with_filter(with_filter(l, g), f));
}

} // verus!
