//! The query encoder shared by every listing, and the enums that more than
//! one resource uses.

use vstd::prelude::*;
use vstd::string::*;

verus! {

/// Sort direction of a listing.
#[derive(Debug, Clone, Copy, PartialEq, Eq, Structural)]
pub enum ListingSort {
    Asc,
    Desc,
}

/// Visibility filter of a project listing.
#[derive(Debug, Clone, Copy, PartialEq, Eq, Structural)]
pub enum ListingVisibility {
    Public,
    Internal,
    Private,
}

pub open spec fn sort_text(s: ListingSort) -> Seq<char> {
    match s {
        ListingSort::Asc => seq!['a', 's', 'c'],
        ListingSort::Desc => seq!['d', 'e', 's', 'c'],
    }
}

pub open spec fn visibility_text(v: ListingVisibility) -> Seq<char> {
    match v {
        ListingVisibility::Public => seq!['p', 'u', 'b', 'l', 'i', 'c'],
        ListingVisibility::Internal => seq!['i', 'n', 't', 'e', 'r', 'n', 'a', 'l'],
        ListingVisibility::Private => seq!['p', 'r', 'i', 'v', 'a', 't', 'e'],
    }
}

pub open spec fn bool_text(b: bool) -> Seq<char> {
    if b {
        seq!['t', 'r', 'u', 'e']
    } else {
        seq!['f', 'a', 'l', 's', 'e']
    }
}

/// `key=value`.
pub open spec fn pair_text(key: Seq<char>, value: Seq<char>) -> Seq<char> {
    key + seq!['='] + value
}

/// Parameters joined by `&`, with no separator before the first or after the last.
pub open spec fn join_params(ps: Seq<Seq<char>>) -> Seq<char>
    decreases ps.len(),
{
    if ps.len() == 0 {
        seq![]
    } else if ps.len() == 1 {
        ps[0]
    } else {
        join_params(ps.drop_last()) + seq!['&'] + ps.last()
    }
}

/// The resource path, followed by `?` and the parameters when there is at least one.
pub open spec fn with_query(base: Seq<char>, ps: Seq<Seq<char>>) -> Seq<char> {
    if ps.len() == 0 {
        base
    } else {
        base + seq!['?'] + join_params(ps)
    }
}

pub open spec fn views(v: Seq<String>) -> Seq<Seq<char>> {
    v.map_values(|s: String| s@)
}

pub open spec fn digit_char(d: nat) -> char {
    if d == 0 { '0' }
    else if d == 1 { '1' }
    else if d == 2 { '2' }
    else if d == 3 { '3' }
    else if d == 4 { '4' }
    else if d == 5 { '5' }
    else if d == 6 { '6' }
    else if d == 7 { '7' }
    else if d == 8 { '8' }
    else { '9' }
}

/// Decimal digits of a natural number, most significant first, without leading zeros.
pub open spec fn nat_text(n: nat) -> Seq<char>
    decreases n,
{
    if n < 10 {
        seq![digit_char(n)]
    } else {
        nat_text(n / 10) + seq![digit_char(n % 10)]
    }
}

/// Decimal text of an integer, with a leading `-` when it is negative.
pub open spec fn int_text(i: int) -> Seq<char> {
    if i < 0 {
        seq!['-'] + nat_text((-i) as nat)
    } else {
        nat_text(i as nat)
    }
}

pub open spec fn bool_param(key: Seq<char>, value: Option<bool>) -> Seq<Seq<char>> {
    match value {
        Some(b) => seq![pair_text(key, bool_text(b))],
        None => seq![],
    }
}

pub open spec fn sort_param(value: Option<ListingSort>) -> Seq<Seq<char>> {
    match value {
        Some(s) => seq![pair_text("sort"@, sort_text(s))],
        None => seq![],
    }
}

pub open spec fn visibility_param(value: Option<ListingVisibility>) -> Seq<Seq<char>> {
    match value {
        Some(v) => seq![pair_text("visibility"@, visibility_text(v))],
        None => seq![],
    }
}

pub fn bool_str(b: bool) -> (r: &'static str)
    ensures
        r@ == bool_text(b),
{
    proof {
        reveal_strlit("true");
        reveal_strlit("false");
    }
    if b {
        "true"
    } else {
        "false"
    }
}

impl ListingSort {
    pub fn as_str(&self) -> (r: &'static str)
        ensures
            r@ == sort_text(*self),
    {
        proof {
            reveal_strlit("asc");
            reveal_strlit("desc");
        }
        match self {
            ListingSort::Asc => "asc",
            ListingSort::Desc => "desc",
        }
    }
}

impl ListingVisibility {
    pub fn as_str(&self) -> (r: &'static str)
        ensures
            r@ == visibility_text(*self),
    {
        proof {
            reveal_strlit("public");
            reveal_strlit("internal");
            reveal_strlit("private");
        }
        match self {
            ListingVisibility::Public => "public",
            ListingVisibility::Internal => "internal",
            ListingVisibility::Private => "private",
        }
    }
}

/// Appends the parameter `key=value` to a list of parameters.
pub fn push_param(params: &mut Vec<String>, key: &str, value: &str)
    ensures
        views(final(params)@) == views(old(params)@).push(pair_text(key@, value@)),
{
    let mut p = String::new();
    push_pair(&mut p, key, value);
    assert(p@ =~= pair_text(key@, value@));
    params.push(p);
    assert(views(final(params)@) =~= views(old(params)@).push(pair_text(key@, value@)));
}

/// Appends `key=true` or `key=false` when `value` is set.
pub fn push_bool_param(params: &mut Vec<String>, key: &str, value: Option<bool>)
    ensures
        views(final(params)@) == views(old(params)@) + bool_param(key@, value),
{
    if let Some(b) = value {
        push_param(params, key, bool_str(b));
    }
    assert(views(final(params)@) =~= views(old(params)@) + bool_param(key@, value));
}

/// Appends `sort=...` when `value` is set.
pub fn push_sort_param(params: &mut Vec<String>, value: Option<ListingSort>)
    ensures
        views(final(params)@) == views(old(params)@) + sort_param(value),
{
    if let Some(s) = value {
        push_param(params, "sort", s.as_str());
    }
    assert(views(final(params)@) =~= views(old(params)@) + sort_param(value));
}

/// Appends `visibility=...` when `value` is set.
pub fn push_visibility_param(params: &mut Vec<String>, value: Option<ListingVisibility>)
    ensures
        views(final(params)@) == views(old(params)@) + visibility_param(value),
{
    if let Some(v) = value {
        push_param(params, "visibility", v.as_str());
    }
    assert(views(final(params)@) =~= views(old(params)@) + visibility_param(value));
}

/// Appends `key=value` to `out`.
pub fn push_pair(out: &mut String, key: &str, value: &str)
    ensures
        final(out)@ == old(out)@ + pair_text(key@, value@),
{
    out.append(key);
    proof {
        reveal_strlit("=");
    }
    out.append("=");
    out.append(value);
}

fn digit_str(d: u64) -> (r: &'static str)
    requires
        d < 10,
    ensures
        r@ == seq![digit_char(d as nat)],
{
    proof {
        reveal_strlit("0");
        reveal_strlit("1");
        reveal_strlit("2");
        reveal_strlit("3");
        reveal_strlit("4");
        reveal_strlit("5");
        reveal_strlit("6");
        reveal_strlit("7");
        reveal_strlit("8");
        reveal_strlit("9");
    }
    if d == 0 { "0" }
    else if d == 1 { "1" }
    else if d == 2 { "2" }
    else if d == 3 { "3" }
    else if d == 4 { "4" }
    else if d == 5 { "5" }
    else if d == 6 { "6" }
    else if d == 7 { "7" }
    else if d == 8 { "8" }
    else { "9" }
}

/// Appends the decimal text of `n` to `out`.
pub fn push_nat(out: &mut String, n: u64)
    ensures
        final(out)@ == old(out)@ + nat_text(n as nat),
    decreases n,
{
    if n >= 10 {
        push_nat(out, n / 10);
    }
    let d = digit_str(n % 10);
    out.append(d);
    proof {
        if n >= 10 {
            assert(old(out)@ + nat_text(n as nat) == old(out)@ + nat_text((n / 10) as nat) + seq![digit_char((n % 10) as nat)]);
        }
    }
}

/// Appends the decimal text of `i` to `out`.
pub fn push_int(out: &mut String, i: i64)
    ensures
        final(out)@ == old(out)@ + int_text(i as int),
{
    if i < 0 {
        proof {
            reveal_strlit("-");
        }
        out.append("-");
        let magnitude: u64 = (0i128 - i as i128) as u64;
        push_nat(out, magnitude);
        assert(final(out)@ == old(out)@ + (seq!['-'] + nat_text((-i) as nat)));
    } else {
        push_nat(out, i as u64);
    }
}

/// Decimal text of a signed integer.
pub fn int_to_text(i: i64) -> (r: String)
    ensures
        r@ == int_text(i as int),
{
    let mut out = String::new();
    push_int(&mut out, i);
    assert(out@ == Seq::<char>::empty() + int_text(i as int));
    out
}

/// Joins `base` and the parameters `params`: `base` alone when there are
/// none, else `base?p1&p2&...`.
pub fn encode_query(base: &str, params: &Vec<String>) -> (r: String)
    ensures
        r@ == with_query(base@, views(params@)),
{
    let mut out = String::from_str(base);
    let n = params.len();
    if n > 0 {
        proof {
            reveal_strlit("?");
        }
        out.append("?");
    }
    let ghost head = out@;
    let mut i: usize = 0;
    while i < n
        invariant
            n == params@.len(),
            0 <= i <= n,
            n > 0 ==> head == base@ + seq!['?'],
            n == 0 ==> head == base@,
            out@ == head + join_params(views(params@).subrange(0, i as int)),
        decreases n - i,
    {
        let ghost before = out@;
        if i > 0 {
            proof {
                reveal_strlit("&");
            }
            out.append("&");
        }
        out.append(params[i].as_str());
        proof {
            let ps = views(params@);
            let pre = ps.subrange(0, i as int);
            let post = ps.subrange(0, i + 1);
            assert(post.drop_last() =~= pre);
            assert(post.last() == params@[i as int]@);
            if i == 0 {
                assert(join_params(pre) == Seq::<char>::empty());
                assert(join_params(post) == post[0]);
                assert(out@ =~= head + join_params(post));
            } else {
                assert(out@ =~= head + join_params(post));
            }
        }
        i = i + 1;
    }
    proof {
        assert(views(params@).subrange(0, n as int) =~= views(params@));
        if n == 0 {
            assert(out@ == base@ + join_params(Seq::<Seq<char>>::empty()));
            assert(out@ =~= base@);
        }
    }
    out
}

} // verus!
