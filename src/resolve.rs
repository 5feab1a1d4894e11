//! Resolution of human-facing identifiers into server-internal ids.
//!
//! The API cannot look a project up by `namespace/name`, nor an issue or a
//! merge request by its `iid`, so the results are read page by page, at a
//! fixed page size, until a match is found or a page comes back underfull.
//! A full page never ends the search, even when it is the last one: the next
//! request, which comes back empty, confirms the end.

use vstd::prelude::*;

use crate::errors::Error;
use crate::listing::{int_text, push_int};

verus! {

/// Number of results asked for on each page of a search.
pub const PAGE_SIZE: u16 = 20;

/// The namespace a project belongs to.
#[derive(Debug, Clone)]
pub struct Namespace {
    pub name: String,
}

/// A project, with the fields that a search reads.
#[derive(Debug, Clone)]
pub struct Project {
    pub id: i64,
    pub name: String,
    pub namespace: Namespace,
}

/// What to do once a page has been scanned.
#[derive(Debug, Clone, Copy, PartialEq, Eq, Structural)]
pub enum Next {
    /// The item at this index of the page is the match.
    Found(usize),
    /// No match yet and the page was full: ask for this page next.
    Fetch(u16),
    /// No match and the page was underfull: there is nothing more to read.
    NotFound,
}

/// The decision after page `page` with `count` items, of which the first
/// match, if any, is at `found`.
pub open spec fn next_spec(page: u16, count: nat, found: Option<usize>) -> Next {
    match found {
        Some(i) => Next::Found(i),
        None => if count < PAGE_SIZE {
            Next::NotFound
        } else {
            Next::Fetch((page + 1) as u16)
        },
    }
}

/// The decision after page `page` with `count` items, of which the first
/// match, if any, is at `found`.
pub fn next_step(page: u16, count: usize, found: Option<usize>) -> (r: Next)
    requires
        found is None && count >= PAGE_SIZE ==> page < u16::MAX,
    ensures
        r == next_spec(page, count as nat, found),
{
    match found {
        Some(i) => Next::Found(i),
        None => if count < PAGE_SIZE as usize {
            Next::NotFound
        } else {
            Next::Fetch(page + 1)
        },
    }
}

pub open spec fn project_matches(p: Project, namespace: Seq<char>, name: Seq<char>) -> bool {
    p.namespace.name@ == namespace && p.name@ == name
}

/// `r` is the index of the first project of `page` named `namespace/name`,
/// or `None` when there is none.
pub open spec fn first_project_match(
    page: Seq<Project>,
    namespace: Seq<char>,
    name: Seq<char>,
    r: Option<usize>,
) -> bool {
    match r {
        Some(i) => {
            &&& i < page.len()
            &&& project_matches(page[i as int], namespace, name)
            &&& forall|j: int| 0 <= j < i ==> !project_matches(#[trigger] page[j], namespace, name)
        },
        None => forall|j: int| 0 <= j < page.len() ==> !project_matches(#[trigger] page[j], namespace, name),
    }
}

/// `r` is the index of the first occurrence of `iid` in `iids`, or `None`.
pub open spec fn first_iid_match(iids: Seq<i64>, iid: i64, r: Option<usize>) -> bool {
    match r {
        Some(i) => {
            &&& i < iids.len()
            &&& iids[i as int] == iid
            &&& forall|j: int| 0 <= j < i ==> #[trigger] iids[j] != iid
        },
        None => forall|j: int| 0 <= j < iids.len() ==> #[trigger] iids[j] != iid,
    }
}

/// The first project of `page` whose namespace is `namespace` and whose name
/// is `name`, both compared exactly.
pub fn find_project(page: &Vec<Project>, namespace: &String, name: &String) -> (r: Option<usize>)
    ensures
        first_project_match(page@, namespace@, name@, r),
{
    let n = page.len();
    let mut i: usize = 0;
    while i < n
        invariant
            n == page@.len(),
            0 <= i <= n,
            forall|j: int| 0 <= j < i ==> !project_matches(#[trigger] page@[j], namespace@, name@),
        decreases n - i,
    {
        if page[i].namespace.name == *namespace && page[i].name == *name {
            return Some(i);
        }
        i = i + 1;
    }
    None
}

/// The first position of `iid` in `iids`.
pub fn find_iid(iids: &Vec<i64>, iid: i64) -> (r: Option<usize>)
    ensures
        first_iid_match(iids@, iid, r),
{
    let n = iids.len();
    let mut i: usize = 0;
    while i < n
        invariant
            n == iids@.len(),
            0 <= i <= n,
            forall|j: int| 0 <= j < i ==> #[trigger] iids@[j] != iid,
        decreases n - i,
    {
        if iids[i] == iid {
            return Some(i);
        }
        i = i + 1;
    }
    None
}

/// Scans page `page` of a project search for `namespace/name`.
pub fn scan_projects(page: u16, items: &Vec<Project>, namespace: &String, name: &String) -> (r: Next)
    requires
        items@.len() >= PAGE_SIZE ==> page < u16::MAX,
    ensures
        exists|found: Option<usize>|
            first_project_match(items@, namespace@, name@, found) && r == next_spec(page, items@.len(), found),
{
    let found = find_project(items, namespace, name);
    next_step(page, items.len(), found)
}

/// Scans page `page` of a listing, given as the `iid` of each item, for `iid`.
pub fn scan_iids(page: u16, iids: &Vec<i64>, iid: i64) -> (r: Next)
    requires
        iids@.len() >= PAGE_SIZE ==> page < u16::MAX,
    ensures
        exists|found: Option<usize>|
            first_iid_match(iids@, iid, found) && r == next_spec(page, iids@.len(), found),
{
    let found = find_iid(iids, iid);
    next_step(page, iids.len(), found)
}

/// The error of a project search that ended without a match.
pub fn project_not_found(namespace: &str, name: &str) -> (r: Error)
    ensures
        r == Error::NotFound(r->NotFound_0),
        r->NotFound_0@ == "project "@ + namespace@ + seq!['/'] + name@,
{
    let mut what = String::from_str("project ");
    what.append(namespace);
    proof {
        reveal_strlit("/");
    }
    what.append("/");
    what.append(name);
    Error::NotFound(what)
}

/// The error of a search for an issue or a merge request, given by `iid`,
/// that ended without a match.
pub fn item_not_found(kind: &str, iid: i64, namespace: &str, name: &str) -> (r: Error)
    ensures
        r == Error::NotFound(r->NotFound_0),
        r->NotFound_0@ == kind@ + " iid="@ + int_text(iid as int) + " of project "@ + namespace@
            + seq!['/'] + name@,
{
    let mut what = String::from_str(kind);
    what.append(" iid=");
    push_int(&mut what, iid);
    what.append(" of project ");
    what.append(namespace);
    proof {
        reveal_strlit("/");
    }
    what.append("/");
    what.append(name);
    Error::NotFound(what)
}

/// Page `k` (counted from 0) of a page source; past its end, pages are empty.
pub open spec fn page_at(pages: Seq<Seq<i64>>, k: int) -> Seq<i64> {
    if 0 <= k < pages.len() {
        pages[k]
    } else {
        seq![]
    }
}

pub open spec fn holds_iid(page: Seq<i64>, iid: i64) -> bool {
    exists|j: int| 0 <= j < page.len() && page[j] == iid
}

/// Whether the search for `iid` ends with this page: it holds a match, or it
/// is underfull.
pub open spec fn ends_search(page: Seq<i64>, iid: i64) -> bool {
    holds_iid(page, iid) || page.len() < PAGE_SIZE
}

/// The first page, from page `k` on, that ends the search.
pub open spec fn first_end_from(pages: Seq<Seq<i64>>, iid: i64, k: nat) -> nat
    decreases pages.len() - k,
{
    if k >= pages.len() || ends_search(page_at(pages, k as int), iid) {
        k
    } else {
        first_end_from(pages, iid, k + 1)
    }
}

/// Number of requests that a search for `iid` makes over `pages`.
pub open spec fn requests_for(pages: Seq<Seq<i64>>, iid: i64) -> nat {
    first_end_from(pages, iid, 0) + 1
}

/// Whether a search for `iid` over `pages` finds it.
pub open spec fn found_for(pages: Seq<Seq<i64>>, iid: i64) -> bool {
    holds_iid(page_at(pages, first_end_from(pages, iid, 0) as int), iid)
}

pub open spec fn page_views(pages: Seq<Vec<i64>>) -> Seq<Seq<i64>> {
    pages.map_values(|p: Vec<i64>| p@)
}

/// Where a search found its match.
#[derive(Debug, Clone, Copy, PartialEq, Eq, Structural)]
pub struct Match {
    /// The page number, from 1.
    pub page: u16,
    /// The index of the match in that page.
    pub index: usize,
}

/// The outcome of a search over a page source.
#[derive(Debug, Clone, Copy, PartialEq, Eq, Structural)]
pub struct Resolution {
    /// Where the match is, if there is one.
    pub found: Option<Match>,
    /// Number of pages that were asked for.
    pub requests: usize,
}

proof fn lemma_first_end_bounded(pages: Seq<Seq<i64>>, iid: i64, k: nat)
    requires
        k <= pages.len(),
    ensures
        k <= first_end_from(pages, iid, k) <= pages.len(),
        ends_search(page_at(pages, first_end_from(pages, iid, k) as int), iid),
        forall|i: int| k <= i < first_end_from(pages, iid, k) ==> !ends_search(#[trigger] page_at(pages, i), iid),
    decreases pages.len() - k,
{
    if k < pages.len() && !ends_search(page_at(pages, k as int), iid) {
        lemma_first_end_bounded(pages, iid, k + 1);
    }
}

/// Runs the search for `iid` over a page source held in memory, page `k + 1`
/// being `pages[k]` and every later page empty, exactly as a search against
/// the server goes: one request per page, stopping at the first page that
/// holds `iid` or is underfull.
pub fn resolve_in_pages(pages: &Vec<Vec<i64>>, iid: i64) -> (r: Resolution)
    requires
        pages@.len() < u16::MAX,
    ensures
        r.requests == requests_for(page_views(pages@), iid),
        r.found is Some <==> found_for(page_views(pages@), iid),
        match r.found {
            Some(m) => {
                &&& m.page == r.requests
                &&& first_iid_match(page_at(page_views(pages@), m.page - 1), iid, Some(m.index))
            },
            None => true,
        },
{
    let ghost views = page_views(pages@);
    let n = pages.len();
    let empty: Vec<i64> = Vec::new();
    let mut k: usize = 0;
    proof {
        lemma_first_end_bounded(views, iid, 0);
    }
    loop
        invariant
            n == pages@.len(),
            n < u16::MAX,
            views == page_views(pages@),
            empty@.len() == 0,
            0 <= k <= first_end_from(views, iid, 0),
            first_end_from(views, iid, 0) <= n,
            ends_search(page_at(views, first_end_from(views, iid, 0) as int), iid),
            forall|i: int| 0 <= i < first_end_from(views, iid, 0) ==> !ends_search(#[trigger] page_at(views, i), iid),
        decreases n - k,
    {
        let page: &Vec<i64> = if k < n {
            &pages[k]
        } else {
            &empty
        };
        assert(page@ == page_at(views, k as int));
        let step = scan_iids((k + 1) as u16, page, iid);
        match step {
            Next::Found(j) => {
                proof {
                    if k < first_end_from(views, iid, 0) {
                        assert(holds_iid(page@, iid));
                    }
                }
                return Resolution { found: Some(Match { page: (k + 1) as u16, index: j }), requests: k + 1 };
            },
            Next::NotFound => {
                proof {
                    assert(k == first_end_from(views, iid, 0));
                    assert(!holds_iid(page@, iid));
                }
                return Resolution { found: None, requests: k + 1 };
            },
            Next::Fetch(_) => {
                proof {
                    assert(!holds_iid(page@, iid));
                    assert(k != first_end_from(views, iid, 0));
                }
                k = k + 1;
            },
        }
    }
}

/// A search whose first page holds the match makes exactly one request, and
/// finds it.
pub proof fn lemma_match_on_first_page(pages: Seq<Seq<i64>>, iid: i64)
    requires
        holds_iid(page_at(pages, 0), iid),
    ensures
        requests_for(pages, iid) == 1,
        found_for(pages, iid),
{
}

/// A search over `k` full pages without a match, followed by an underfull
/// page without one, makes exactly `k + 1` requests and finds nothing.
pub proof fn lemma_underfull_page_ends_search(pages: Seq<Seq<i64>>, iid: i64, k: nat)
    requires
        forall|i: int| 0 <= i < k ==> (#[trigger] page_at(pages, i)).len() == PAGE_SIZE && !holds_iid(page_at(pages, i), iid),
        page_at(pages, k as int).len() < PAGE_SIZE,
        !holds_iid(page_at(pages, k as int), iid),
    ensures
        requests_for(pages, iid) == k + 1,
        !found_for(pages, iid),
{
    assert forall|i: nat| i <= k implies first_end_from(pages, iid, i) == k by {
        lemma_first_end_from_index(pages, iid, k, i);
    }
}

proof fn lemma_first_end_from_index(pages: Seq<Seq<i64>>, iid: i64, k: nat, i: nat)
    requires
        i <= k,
        forall|m: int| 0 <= m < k ==> (#[trigger] page_at(pages, m)).len() == PAGE_SIZE && !holds_iid(page_at(pages, m), iid),
        page_at(pages, k as int).len() < PAGE_SIZE,
    ensures
        first_end_from(pages, iid, i) == k,
    decreases k - i,
{
    if i < k {
        assert(page_at(pages, i as int).len() == PAGE_SIZE);
        assert(i < pages.len());
        lemma_first_end_from_index(pages, iid, k, i + 1);
    } else {
        if i < pages.len() {
            assert(ends_search(page_at(pages, i as int), iid));
        }
    }
}

} // verus!
