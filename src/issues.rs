//! Issues: `GET /issues` for those of the authenticated user, and
//! `GET /projects/ID/issues` for those of one project.

use vstd::prelude::*;
use vstd::string::*;

use crate::listing::{int_text, push_int};

verus! {

/// An issue, with the fields that a search reads.
#[derive(Debug, Clone)]
pub struct Issue {
    pub id: i64,
    pub iid: i64,
    pub project_id: i64,
    pub title: String,
}

/// Lister of issues, of every project or of one.
#[derive(Debug, Clone, Copy, PartialEq, Eq, Structural)]
pub struct IssuesLister {
    /// The project whose issues are listed; all projects when unset.
    pub project: Option<i64>,
}

impl IssuesLister {
    pub fn new() -> (r: IssuesLister)
        ensures
            r.project is None,
    {
        IssuesLister { project: None }
    }

    /// Only the issues of project `id`.
    pub fn project(self, id: i64) -> (r: IssuesLister)
        ensures
            r.project == Some(id),
    {
        IssuesLister { project: Some(id) }
    }

    /// `issues`, or `projects/ID/issues` for one project.
    pub fn build_query(&self) -> (r: String)
        ensures
            r@ == match self.project {
                Some(id) => "projects/"@ + int_text(id as int) + "/issues"@,
                None => "issues"@,
            },
    {
        match self.project {
            Some(id) => {
                let mut query = String::from_str("projects/");
                push_int(&mut query, id);
                query.append("/issues");
                query
            },
            None => String::from_str("issues"),
        }
    }
}

} // verus!
