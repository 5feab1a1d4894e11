//! A single project: `GET /projects/ID`, where `ID` is the project's id or
//! its `namespace/name` with the `/` percent-encoded.

use vstd::prelude::*;
use vstd::string::*;

use crate::listing::{int_text, push_int};
use crate::projects::ListingId;

verus! {

/// `s` with each `/` written as `%2F`.
pub open spec fn escape_slashes(s: Seq<char>) -> Seq<char>
    decreases s.len(),
{
    if s.len() == 0 {
        seq![]
    } else {
        escape_slashes(s.drop_last()) + if s.last() == '/' {
            seq!['%', '2', 'F']
        } else {
            seq![s.last()]
        }
    }
}

/// The path segment that addresses a project.
pub open spec fn id_segment(id: ListingId) -> Seq<char> {
    match id {
        ListingId::Id(i) => int_text(i as int),
        ListingId::NamespaceProject(s) => escape_slashes(s@),
    }
}

/// Appends `s` to `out`, with each `/` written as `%2F`.
pub fn push_escaped(out: &mut String, s: &str)
    ensures
        final(out)@ == old(out)@ + escape_slashes(s@),
{
    let n = s.unicode_len();
    let mut i: usize = 0;
    while i < n
        invariant
            n == s@.len(),
            0 <= i <= n,
            out@ == old(out)@ + escape_slashes(s@.subrange(0, i as int)),
        decreases n - i,
    {
        let c = s.get_char(i);
        if c == '/' {
            proof {
                reveal_strlit("%2F");
            }
            out.append("%2F");
        } else {
            out.append(s.substring_char(i, i + 1));
        }
        proof {
            let next = s@.subrange(0, i + 1);
            assert(next.drop_last() =~= s@.subrange(0, i as int));
            assert(next.last() == c);
            assert(s@.subrange(i as int, i + 1) =~= seq![c]);
        }
        i = i + 1;
    }
    assert(s@.subrange(0, n as int) =~= s@);
}

/// Lister of one project.
#[derive(Debug, Clone)]
pub struct ProjectsLister {
    pub id: ListingId,
}

impl ProjectsLister {
    pub fn new(id: ListingId) -> (r: ProjectsLister)
        ensures
            r.id == id,
    {
        ProjectsLister { id }
    }

    /// `projects/` followed by the project's id, or by its
    /// `namespace/name` with `/` written as `%2F`.
    pub fn build_query(&self) -> (r: String)
        ensures
            r@ == "projects/"@ + id_segment(self.id),
    {
        let mut query = String::from_str("projects/");
        match &self.id {
            ListingId::Id(i) => push_int(&mut query, *i),
            ListingId::NamespaceProject(s) => push_escaped(&mut query, s.as_str()),
        }
        query
    }
}

} // verus!
