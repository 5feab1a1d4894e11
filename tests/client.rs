use gitlab_api::errors::{ConfigurationError, Error};
use gitlab_api::gitlab::{check_status, GitLab};

const TOKEN: &str = "XXXXXXXXXXXXXXXXXXXX";

fn verify_ok(result: &Result<GitLab, Error>) {
    if let Err(e) = result {
        println!("error: {:?}", e);
    }
    assert!(result.is_ok());
}

fn verify_err(result: &Result<GitLab, Error>) {
    match result {
        Err(_) => {}
        Ok(gl) => panic!("Expected an Err(), got an Ok(t), with t: {}", gl.describe()),
    }
}

#[test]
fn impl_debug_for_gitlab() {
    let gl = GitLab::new("gitlab.com", TOKEN).unwrap();

    let debug = gl.describe();
    assert_eq!("GitLab { scheme: https, domain: gitlab.com, port: no port provided, \
                private_token: XXXXXXXXXXXXXXXXXXXX }",
               debug);

    let gl = gl.scheme("http").unwrap().port(80).unwrap();
    let debug = gl.describe();
    assert_eq!("GitLab { scheme: http, domain: gitlab.com, port: no port provided, \
                private_token: XXXXXXXXXXXXXXXXXXXX }",
               debug);

    let gl = gl.port(81).unwrap();
    let debug = gl.describe();
    assert_eq!("GitLab { scheme: http, domain: gitlab.com, port: 81, private_token: \
                XXXXXXXXXXXXXXXXXXXX }",
               debug);
}

#[test]
fn new_valid() {
    let gl = GitLab::new("gitlab.com", TOKEN);
    verify_ok(&gl);

    let gl = GitLab::new_insecure("gitlab.com", TOKEN);
    verify_ok(&gl);

    let gl = GitLab::new("localhost", TOKEN);
    verify_ok(&gl);

    let gl = GitLab::new_insecure("localhost", TOKEN);
    verify_ok(&gl);
}

#[test]
fn new_invalid_url_1() {
    let gl = GitLab::new("", TOKEN);
    verify_err(&gl);

    let gl = GitLab::new_insecure("", TOKEN);
    verify_err(&gl);
}

#[test]
fn new_invalid_url_2() {
    let gl = GitLab::new("gitla/b.com", TOKEN);
    verify_err(&gl);

    let gl = GitLab::new_insecure("gitla/b.com", TOKEN);
    verify_err(&gl);
}

#[test]
fn new_invalid_url_3() {
    let gl = GitLab::new("/gitlab.com", TOKEN);
    verify_err(&gl);

    let gl = GitLab::new_insecure("/gitlab.com", TOKEN);
    verify_err(&gl);
}

#[test]
fn new_invalid_url_4() {
    let gl = GitLab::new("http:/gitlab.com", TOKEN);
    verify_err(&gl);

    let gl = GitLab::new_insecure("http:/gitlab.com", TOKEN);
    verify_err(&gl);
}

#[test]
fn new_invalid_url_5() {
    let gl = GitLab::new("http:///gitlab.com", TOKEN);
    verify_err(&gl);

    let gl = GitLab::new_insecure("http:///gitlab.com", TOKEN);
    verify_err(&gl);
}

#[test]
fn new_invalid_url_6() {
    let gl = GitLab::new(".gitlab", TOKEN);
    verify_err(&gl);

    let gl = GitLab::new_insecure(".gitlab", TOKEN);
    verify_err(&gl);
}

#[test]
fn new_invalid_url_7() {
    let gl = GitLab::new(".gitlab.com", TOKEN);
    verify_err(&gl);

    let gl = GitLab::new_insecure(".gitlab.com", TOKEN);
    verify_err(&gl);
}

#[test]
fn new_invalid_url_8() {
    let gl = GitLab::new("gitlab.", TOKEN);
    verify_err(&gl);

    let gl = GitLab::new_insecure("gitlab.", TOKEN);
    verify_err(&gl);
}

#[test]
fn new_invalid_url_10() {
    let gl = GitLab::new("gitlab.com.", TOKEN);
    verify_err(&gl);

    let gl = GitLab::new_insecure("gitlab.com.", TOKEN);
    verify_err(&gl);
}

#[test]
fn new_invalid_token() {
    let gl = GitLab::new("gitlab.com", "");
    verify_err(&gl);

    let gl = GitLab::new("gitlab.com", "X");
    verify_err(&gl);

    let gl = GitLab::new("gitlab.com", "XXXXXXXXXXXXXXXXXXX");
    verify_err(&gl);

    let gl = GitLab::new("gitlab.com", "XXXXXXXXXXXXXXXXXXXXX");
    verify_err(&gl);
}

#[test]
fn build_url_doc() {
    let expected_url = "https://gitlab.example.com\
                        /api/v3/groups?order_by=path&private_token=XXXXXXXXXXXXXXXXXXXX";
    let gl = GitLab::new("gitlab.example.com", TOKEN).unwrap();
    let url = gl.build_url("groups?order_by=path");
    assert_eq!(url, expected_url);
}

fn configuration_error(r: Result<GitLab, Error>) -> ConfigurationError {
    match r {
        Err(Error::Configuration(c)) => c,
        Err(e) => panic!("not a configuration error: {:?}", e),
        Ok(gl) => panic!("accepted: {}", gl.describe()),
    }
}

#[test]
fn token_length_boundary() {
    assert_eq!(configuration_error(GitLab::new("gitlab.com", "XXXXXXXXXXXXXXXXXXX")),
               ConfigurationError::TokenLength(19));
    assert_eq!(configuration_error(GitLab::new("gitlab.com", "XXXXXXXXXXXXXXXXXXXXX")),
               ConfigurationError::TokenLength(21));
    assert!(GitLab::new("gitlab.com", "XXXXXXXXXXXXXXXXXXXX").is_ok());
}

#[test]
fn token_length_counts_characters() {
    // 20 characters, 21 bytes.
    assert!(GitLab::new("gitlab.com", "éXXXXXXXXXXXXXXXXXXX").is_ok());
}

#[test]
fn host_dot_boundary() {
    assert_eq!(configuration_error(GitLab::new(".gitlab.com", TOKEN)),
               ConfigurationError::HostStartsWithDot);
    assert_eq!(configuration_error(GitLab::new("gitlab.com.", TOKEN)),
               ConfigurationError::HostEndsWithDot);
    assert!(GitLab::new("gitlab.com", TOKEN).is_ok());
}

#[test]
fn token_checked_before_host() {
    assert_eq!(configuration_error(GitLab::new(".gitlab.com", "X")),
               ConfigurationError::TokenLength(1));
}

#[test]
fn url_that_does_not_parse() {
    assert_eq!(configuration_error(GitLab::new("", TOKEN)), ConfigurationError::InvalidUrl);
}

#[test]
fn url_with_another_host() {
    assert_eq!(configuration_error(GitLab::new("gitla/b.com", TOKEN)),
               ConfigurationError::HostMismatch);
}

#[test]
fn explicit_port_in_urls() {
    let gl = GitLab::_new("https", "gitlab.example.com", 8443, TOKEN).unwrap();
    assert_eq!(gl.build_url("projects"),
               "https://gitlab.example.com:8443/api/v3/projects?private_token=XXXXXXXXXXXXXXXXXXXX");
    let gl = GitLab::new_insecure("gitlab.example.com", TOKEN).unwrap();
    assert_eq!(gl.build_url("projects"),
               "http://gitlab.example.com/api/v3/projects?private_token=XXXXXXXXXXXXXXXXXXXX");
}

#[test]
fn token_is_form_encoded() {
    let gl = GitLab::new("gitlab.example.com", "XXXXXXXXXXXXXXXXX &X").unwrap();
    assert_eq!(gl.build_url("projects"),
               "https://gitlab.example.com/api/v3/projects?private_token=XXXXXXXXXXXXXXXXX+%26X");
}

#[test]
fn request_url_with_pagination() {
    let gl = GitLab::new("gitlab.example.com", TOKEN).unwrap();
    assert_eq!(gl.request_url("projects?search=x", Some(2), Some(20)),
               "https://gitlab.example.com/api/v3/projects?search=x\
                &private_token=XXXXXXXXXXXXXXXXXXXX&page=2&per_page=20");
    assert_eq!(gl.request_url("projects", None, None),
               "https://gitlab.example.com/api/v3/projects?private_token=XXXXXXXXXXXXXXXXXXXX");
}

#[test]
fn status_other_than_ok_is_an_error() {
    assert!(check_status(200).is_ok());
    match check_status(404) {
        Err(Error::Status(404)) => {}
        other => panic!("unexpected: {:?}", other),
    }
}
