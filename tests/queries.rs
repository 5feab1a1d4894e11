use gitlab_api::gitlab::GitLab;
use gitlab_api::groups::owned_groups;
use gitlab_api::issues::IssuesLister;
use gitlab_api::listing::int_to_text;
use gitlab_api::merge_requests::{ListingOrderBy as MrOrderBy, State};
use gitlab_api::projects::{Listing, ListingId, ListingOrderBy};
use gitlab_api::{ListingSort, ListingVisibility};

const TEST_PROJECT_ID: i64 = 123;
const TEST_PROJECT_NAME: &str = "group/project";

fn gl() -> GitLab {
    GitLab::new("localhost", "XXXXXXXXXXXXXXXXXXXX").unwrap()
}

#[test]
fn owned_groups_build_query_default() {
    let expected_string = "groups/owned";
    let listing = owned_groups::Listing::new();
    let query = listing.build_query();
    assert_eq!(query, expected_string);
}

#[test]
fn build_query_default() {
    let gl = gl();
    let expected_string = format!("projects/{}/merge_requests", TEST_PROJECT_ID);
    let lister = gl.merge_requests(TEST_PROJECT_ID);
    let query = lister.build_query();
    assert_eq!(query, expected_string);

    let expected_string = format!("projects/{}/merge_requests", TEST_PROJECT_ID);
    let query = gl.merge_requests(TEST_PROJECT_ID).build_query();
    assert_eq!(query, expected_string);
}

#[test]
fn build_query_iid() {
    let gl = gl();
    let expected_string = format!("projects/{}/merge_requests?iid=456", TEST_PROJECT_ID);
    let query = gl.merge_requests(TEST_PROJECT_ID).iid(vec![456]).build_query();
    assert_eq!(query, expected_string);

    let expected_string = format!("projects/123/merge_requests?iid[]=456&iid[]=789");
    let query = gl.merge_requests(TEST_PROJECT_ID).iid(vec![456, 789]).build_query();
    assert_eq!(query, expected_string);
}

#[test]
fn build_query_state() {
    let gl = gl();
    let expected_string = format!("projects/{}/merge_requests?state=merged", TEST_PROJECT_ID);
    let query = gl.merge_requests(TEST_PROJECT_ID).state(State::Merged).build_query();
    assert_eq!(query, expected_string);

    let expected_string = format!("projects/{}/merge_requests?state=opened", TEST_PROJECT_ID);
    let query = gl.merge_requests(TEST_PROJECT_ID).state(State::Opened).build_query();
    assert_eq!(query, expected_string);

    let expected_string = format!("projects/{}/merge_requests?state=closed", TEST_PROJECT_ID);
    let query = gl.merge_requests(TEST_PROJECT_ID).state(State::Closed).build_query();
    assert_eq!(query, expected_string);

    let expected_string = format!("projects/{}/merge_requests?state=all", TEST_PROJECT_ID);
    let query = gl.merge_requests(TEST_PROJECT_ID).state(State::All).build_query();
    assert_eq!(query, expected_string);
}

#[test]
fn build_query_order_by() {
    let gl = gl();
    let expected_string = format!("projects/{}/merge_requests?order_by=created_at",
                                  TEST_PROJECT_ID);
    let query = gl.merge_requests(TEST_PROJECT_ID)
        .order_by(MrOrderBy::CreatedAt)
        .build_query();
    assert_eq!(query, expected_string);

    let expected_string = format!("projects/{}/merge_requests?order_by=updated_at",
                                  TEST_PROJECT_ID);
    let query = gl.merge_requests(TEST_PROJECT_ID)
        .order_by(MrOrderBy::UpdatedAt)
        .build_query();
    assert_eq!(query, expected_string);
}

#[test]
fn build_query_sort() {
    let gl = gl();
    let expected_string = format!("projects/{}/merge_requests?sort=asc", TEST_PROJECT_ID);
    let query = gl.merge_requests(TEST_PROJECT_ID).sort(ListingSort::Asc).build_query();
    assert_eq!(query, expected_string);

    let expected_string = format!("projects/{}/merge_requests?sort=desc", TEST_PROJECT_ID);
    let query = gl.merge_requests(TEST_PROJECT_ID).sort(ListingSort::Desc).build_query();
    assert_eq!(query, expected_string);
}

#[test]
fn build_query_multiple() {
    let gl = gl();
    let expected_string = format!("projects/{}/merge_requests?\
        iid[]=456&iid[]=789&order_by=created_at&sort=asc",
                                  TEST_PROJECT_ID);
    let query = gl.merge_requests(TEST_PROJECT_ID)
        .iid(vec![456, 789])
        .sort(ListingSort::Asc)
        .order_by(MrOrderBy::CreatedAt)
        .build_query();
    assert_eq!(query, expected_string);
}

#[test]
fn build_query_id() {
    let gl = gl();
    let expected_string = format!("projects/{}", TEST_PROJECT_ID);
    let query = gl.projects().id(ListingId::Id(TEST_PROJECT_ID)).build_query();
    assert_eq!(query, expected_string);

    let expected_string = format!("projects/{}",
                                  TEST_PROJECT_NAME.to_string().replace("/", "%2F"));
    let query = gl.projects()
        .id(ListingId::NamespaceProject(TEST_PROJECT_NAME.to_string()))
        .build_query();
    assert_eq!(query, expected_string);
}

#[test]
fn mod_build_query_default() {
    let expected_string = "projects";
    let listing = Listing::new();
    let query = listing.build_query();
    assert_eq!(query, expected_string);
}

#[test]
fn mod_build_query_archived() {
    let expected_string = "projects?archived=true";
    let query = Listing::new().archived(true).build_query();
    assert_eq!(query, expected_string);

    let expected_string = "projects?archived=false";
    let query = Listing::new().archived(false).build_query();
    assert_eq!(query, expected_string);
}

#[test]
fn mod_build_query_visibility() {
    let expected_string = "projects?visibility=public";
    let query = Listing::new().visibility(ListingVisibility::Public).build_query();
    assert_eq!(query, expected_string);

    let expected_string = "projects?visibility=internal";
    let query = Listing::new().visibility(ListingVisibility::Internal).build_query();
    assert_eq!(query, expected_string);

    let expected_string = "projects?visibility=private";
    let query = Listing::new().visibility(ListingVisibility::Private).build_query();
    assert_eq!(query, expected_string);
}

#[test]
fn mod_build_query_order_by() {
    let cases = [
        (ListingOrderBy::Id, "projects?order_by=id"),
        (ListingOrderBy::Name, "projects?order_by=name"),
        (ListingOrderBy::Path, "projects?order_by=path"),
        (ListingOrderBy::CreatedAt, "projects?order_by=created_at"),
        (ListingOrderBy::UpdatedAt, "projects?order_by=updated_at"),
        (ListingOrderBy::LastActivityAt, "projects?order_by=last_activity_at"),
    ];
    for (order_by, expected_string) in cases.iter() {
        let query = Listing::new().order_by(*order_by).build_query();
        assert_eq!(query, *expected_string);
    }
}

#[test]
fn mod_build_query_sort() {
    let expected_string = "projects?sort=asc";
    let query = Listing::new().sort(ListingSort::Asc).build_query();
    assert_eq!(query, expected_string);

    let expected_string = "projects?sort=desc";
    let query = Listing::new().sort(ListingSort::Desc).build_query();
    assert_eq!(query, expected_string);
}

#[test]
fn mod_build_query_search() {
    let expected_string = "projects?search=SearchPattern";
    let query = Listing::new().search(String::from("SearchPattern")).build_query();
    assert_eq!(query, expected_string);
}

#[test]
fn build_query_simple() {
    let expected_string = "projects?simple=true";
    let query = Listing::new().simple(true).build_query();
    assert_eq!(query, expected_string);

    let expected_string = "projects?simple=false";
    let query = Listing::new().simple(false).build_query();
    assert_eq!(query, expected_string);
}

#[test]
fn mod_groups_build_query_multiple() {
    let expected_string = "projects?archived=true&simple=true";
    let query = Listing::new().archived(true).simple(true).build_query();
    assert_eq!(query, expected_string);
}

#[test]
fn owned_build_query_default() {
    let expected_string = "projects/owned";
    let gl = gl();
    let projects_lister = gl.projects().owned();
    let query = projects_lister.build_query();
    assert_eq!(query, expected_string);

    let query = gl.projects().owned().build_query();
    assert_eq!(query, expected_string);
}

#[test]
fn owned_build_query_archived() {
    let gl = gl();
    let expected_string = "projects/owned?archived=true";
    let projects_lister = gl.projects().owned();
    let query = projects_lister.archived(true).build_query();
    assert_eq!(query, expected_string);
    let query = gl.projects().owned().archived(true).build_query();
    assert_eq!(query, expected_string);

    let expected_string = "projects/owned?archived=false";
    let projects_lister = gl.projects().owned();
    let query = projects_lister.archived(false).build_query();
    assert_eq!(query, expected_string);
    let query = gl.projects().owned().archived(false).build_query();
    assert_eq!(query, expected_string);
}

#[test]
fn owned_build_query_visibility() {
    let gl = gl();
    let cases = [
        (ListingVisibility::Public, "projects/owned?visibility=public"),
        (ListingVisibility::Internal, "projects/owned?visibility=internal"),
        (ListingVisibility::Private, "projects/owned?visibility=private"),
    ];
    for (visibility, expected_string) in cases.iter() {
        let projects_lister = gl.projects().owned();
        let query = projects_lister.visibility(*visibility).build_query();
        assert_eq!(query, *expected_string);
        let query = gl.projects().owned().visibility(*visibility).build_query();
        assert_eq!(query, *expected_string);
    }
}

#[test]
fn owned_build_query_order_by() {
    let gl = gl();
    let cases = [
        (ListingOrderBy::Id, "projects/owned?order_by=id"),
        (ListingOrderBy::Name, "projects/owned?order_by=name"),
        (ListingOrderBy::Path, "projects/owned?order_by=path"),
        (ListingOrderBy::CreatedAt, "projects/owned?order_by=created_at"),
        (ListingOrderBy::UpdatedAt, "projects/owned?order_by=updated_at"),
        (ListingOrderBy::LastActivityAt, "projects/owned?order_by=last_activity_at"),
    ];
    for (order_by, expected_string) in cases.iter() {
        let projects_lister = gl.projects().owned();
        let query = projects_lister.order_by(*order_by).build_query();
        assert_eq!(query, *expected_string);
        let query = gl.projects().owned().order_by(*order_by).build_query();
        assert_eq!(query, *expected_string);
    }
}

#[test]
fn owned_build_query_sort() {
    let gl = gl();
    let expected_string = "projects/owned?sort=asc";
    let projects_lister = gl.projects().owned();
    let query = projects_lister.sort(ListingSort::Asc).build_query();
    assert_eq!(query, expected_string);
    let query = gl.projects().owned().sort(ListingSort::Asc).build_query();
    assert_eq!(query, expected_string);

    let expected_string = "projects/owned?sort=desc";
    let projects_lister = gl.projects().owned();
    let query = projects_lister.sort(ListingSort::Desc).build_query();
    assert_eq!(query, expected_string);
    let query = gl.projects().owned().sort(ListingSort::Desc).build_query();
    assert_eq!(query, expected_string);
}

#[test]
fn owned_build_query_search() {
    let gl = gl();
    let expected_string = "projects/owned?search=SearchPattern";
    let projects_lister = gl.projects().owned();
    let query = projects_lister.search(String::from("SearchPattern")).build_query();
    assert_eq!(query, expected_string);
    let query = gl.projects().owned().search(String::from("SearchPattern")).build_query();
    assert_eq!(query, expected_string);
}

#[test]
fn owned_groups_build_query_multiple() {
    let gl = gl();
    let expected_string = "projects/owned?archived=true&sort=desc";
    let projects_lister = gl.projects().owned();
    let query = projects_lister.archived(true).sort(ListingSort::Desc).build_query();
    assert_eq!(query, expected_string);
    let query = gl.projects().owned().archived(true).sort(ListingSort::Desc).build_query();
    assert_eq!(query, expected_string);
}

#[test]
fn setter_order_does_not_change_query() {
    let a = Listing::new().sort(ListingSort::Asc).archived(true).build_query();
    let b = Listing::new().archived(true).sort(ListingSort::Asc).build_query();
    assert_eq!(a, b);
    assert_eq!(a, "projects?archived=true&sort=asc");

    let all_forward = Listing::new()
        .archived(false)
        .visibility(ListingVisibility::Private)
        .order_by(ListingOrderBy::Name)
        .sort(ListingSort::Desc)
        .search(String::from("x"))
        .simple(true)
        .build_query();
    let all_backward = Listing::new()
        .simple(true)
        .search(String::from("x"))
        .sort(ListingSort::Desc)
        .order_by(ListingOrderBy::Name)
        .visibility(ListingVisibility::Private)
        .archived(false)
        .build_query();
    assert_eq!(all_forward, all_backward);
    assert_eq!(all_forward,
               "projects?archived=false&visibility=private&order_by=name&sort=desc&search=x&simple=true");

    let mr = gl().merge_requests(7).sort(ListingSort::Desc).state(State::Opened).build_query();
    assert_eq!(mr, "projects/7/merge_requests?state=opened&sort=desc");
}

#[test]
fn last_write_wins() {
    let query = Listing::new().archived(true).archived(false).build_query();
    assert_eq!(query, "projects?archived=false");
}

#[test]
fn empty_search_is_left_out() {
    assert_eq!(Listing::new().search(String::new()).build_query(), "projects");
    assert_eq!(gl().projects().owned().search(String::new()).build_query(), "projects/owned");
}

#[test]
fn owned_search_is_form_encoded() {
    let query = gl().projects().owned().search(String::from("a b&c")).build_query();
    assert_eq!(query, "projects/owned?search=a+b%26c");
}

#[test]
fn empty_iid_set_is_left_out() {
    let query = gl().merge_requests(TEST_PROJECT_ID).iid(vec![]).build_query();
    assert_eq!(query, "projects/123/merge_requests");
}

#[test]
fn three_iids_repeat_the_array_key() {
    let query = gl().merge_requests(TEST_PROJECT_ID).iid(vec![3, 1, 2]).build_query();
    assert_eq!(query, "projects/123/merge_requests?iid[]=3&iid[]=1&iid[]=2");
}

#[test]
fn merge_request_scenario() {
    let query = gl()
        .merge_requests(123)
        .iid(vec![456, 789])
        .sort(ListingSort::Asc)
        .order_by(MrOrderBy::CreatedAt)
        .build_query();
    assert_eq!(query, "projects/123/merge_requests?iid[]=456&iid[]=789&order_by=created_at&sort=asc");
}

#[test]
fn namespace_path_is_percent_encoded() {
    let query = Listing::new().id(ListingId::NamespaceProject(String::from("group/project"))).build_query();
    assert_eq!(query, "projects/group%2Fproject");
    let query = Listing::new().id(ListingId::NamespaceProject(String::from("a/b/c"))).build_query();
    assert_eq!(query, "projects/a%2Fb%2Fc");
}

#[test]
fn negative_and_extreme_ids() {
    assert_eq!(Listing::new().id(ListingId::Id(-5)).build_query(), "projects/-5");
    assert_eq!(int_to_text(i64::MIN), "-9223372036854775808");
    assert_eq!(int_to_text(i64::MAX), "9223372036854775807");
    assert_eq!(int_to_text(0), "0");
}

#[test]
fn issues_queries() {
    assert_eq!(IssuesLister::new().build_query(), "issues");
    assert_eq!(gl().issues().project(42).build_query(), "projects/42/issues");
}
