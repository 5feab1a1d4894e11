//! The client's configuration: scheme, host, port and private token, checked
//! once when the client is made, and the request URLs built from it.

use vstd::prelude::*;
use vstd::string::*;

use crate::errors::{ConfigurationError, Error};
use crate::listing::{nat_text, push_nat};

verus! {

/// Version of the API that every request addresses.
pub const API_VERSION: u16 = 3;

/// Number of characters of a private token.
pub const TOKEN_LENGTH: usize = 20;

/// What `url::Url::parse` makes of a text: `None` when it does not parse,
/// else the URL's scheme, host and explicit port (`None` for the scheme's
/// default port).
pub uninterp spec fn parsed_url(text: Seq<char>) -> Option<(Seq<char>, Option<Seq<char>>, Option<u16>)>;

/// What `url::form_urlencoded::byte_serialize` makes of a text's UTF-8 bytes.
pub uninterp spec fn form_encoded(text: Seq<char>) -> Seq<char>;

/// Scheme, host and port of a parsed URL, as plain values.
struct UrlParts {
    scheme: String,
    host: Option<String>,
    port: Option<u16>,
}

impl UrlParts {
    spec fn view(&self) -> (Seq<char>, Option<Seq<char>>, Option<u16>) {
        (self.scheme@, match self.host {
            Some(h) => Some(h@),
            None => None,
        }, self.port)
    }
}

/// Relies on `url::Url::parse`, and on the URL's `scheme`, `host_str` and
/// `port`, which read what was parsed.
#[verifier::external_body]
fn parse_url(text: &str) -> (r: Option<UrlParts>)
    ensures
        match r {
            Some(p) => parsed_url(text@) == Some(p.view()),
            None => parsed_url(text@).is_none(),
        },
{
    match url::Url::parse(text) {
        Ok(u) => Some(UrlParts {
            scheme: u.scheme().to_string(),
            host: u.host_str().map(|h| h.to_string()),
            port: u.port(),
        }),
        Err(_) => None,
    }
}

/// Relies on `url::form_urlencoded::byte_serialize`, the encoder that
/// `append_pair` applies to a query value.
#[verifier::external_body]
fn form_encode(text: &str) -> (r: String)
    ensures
        r@ == form_encoded(text@),
{
    url::form_urlencoded::byte_serialize(text.as_bytes()).collect()
}

/// `:port`, or nothing when the port is the scheme's default.
pub open spec fn port_suffix(port: Option<u16>) -> Seq<char> {
    match port {
        Some(p) => seq![':'] + nat_text(p as nat),
        None => seq![],
    }
}

/// `scheme://host[:port]/api/vN/`.
pub open spec fn base_text(scheme: Seq<char>, host: Seq<char>, port: Option<u16>) -> Seq<char> {
    scheme + "://"@ + host + port_suffix(port) + "/api/v"@ + nat_text(API_VERSION as nat) + seq!['/']
}

/// Whether a text holds a `?`.
pub open spec fn has_query(s: Seq<char>) -> bool {
    exists|i: int| 0 <= i < s.len() && s[i] == '?'
}

/// Separator before a parameter appended to `s`.
pub open spec fn next_separator(s: Seq<char>) -> Seq<char> {
    if has_query(s) {
        seq!['&']
    } else {
        seq!['?']
    }
}

/// The `page` and `per_page` parameters, each when given.
pub open spec fn pagination_text(page: Option<u16>, per_page: Option<u16>) -> Seq<char> {
    (match page {
        Some(p) => "&page="@ + nat_text(p as nat),
        None => seq![],
    }) + (match per_page {
        Some(p) => "&per_page="@ + nat_text(p as nat),
        None => seq![],
    })
}

/// Whether a host starts or ends with `.`.
pub open spec fn host_has_edge_dot(host: Seq<char>) -> bool {
    host.len() > 0 && (host[0] == '.' || host.last() == '.')
}

/// Appends `scheme://host[:port]/api/vN/` to `out`.
fn push_base(out: &mut String, scheme: &str, host: &str, port: Option<u16>)
    ensures
        final(out)@ == old(out)@ + base_text(scheme@, host@, port),
{
    out.append(scheme);
    out.append("://");
    out.append(host);
    if let Some(p) = port {
        proof {
            reveal_strlit(":");
        }
        out.append(":");
        push_nat(out, p as u64);
    }
    out.append("/api/v");
    push_nat(out, API_VERSION as u64);
    proof {
        reveal_strlit("/");
    }
    out.append("/");
    assert(final(out)@ =~= old(out)@ + base_text(scheme@, host@, port));
}

/// Whether `s` holds a `?`.
fn contains_question_mark(s: &str) -> (r: bool)
    ensures
        r == has_query(s@),
{
    let n = s.unicode_len();
    let mut i: usize = 0;
    while i < n
        invariant
            n == s@.len(),
            0 <= i <= n,
            forall|j: int| 0 <= j < i ==> s@[j] != '?',
        decreases n - i,
    {
        if s.get_char(i) == '?' {
            return true;
        }
        i = i + 1;
    }
    false
}

/// A checked client configuration.
pub struct GitLab {
    scheme: String,
    host: String,
    port: Option<u16>,
    private_token: String,
}

impl GitLab {
    pub closed spec fn scheme_view(&self) -> Seq<char> {
        self.scheme@
    }

    pub closed spec fn host_view(&self) -> Seq<char> {
        self.host@
    }

    /// The explicit port: `None` when it is the scheme's default.
    pub closed spec fn port_view(&self) -> Option<u16> {
        self.port
    }

    pub closed spec fn token_view(&self) -> Seq<char> {
        self.private_token@
    }

    /// `scheme://host[:port]/api/vN/`, the URL that every request extends.
    pub open spec fn base_url(&self) -> Seq<char> {
        base_text(self.scheme_view(), self.host_view(), self.port_view())
    }

    /// The invariant: a token of the right length and a host without a dot
    /// at either end.
    pub open spec fn wf(&self) -> bool {
        &&& self.token_view().len() == TOKEN_LENGTH
        &&& !host_has_edge_dot(self.host_view())
    }

    /// The URL of a request for `query`: the base URL, the query, then the
    /// form-encoded token as the last parameter.
    pub open spec fn url_for(&self, query: Seq<char>) -> Seq<char> {
        let head = self.base_url() + query;
        head + next_separator(head) + "private_token="@ + form_encoded(self.token_view())
    }

    /// What `new`, `new_insecure` and `_new` return.
    pub open spec fn configured(
        r: Result<GitLab, Error>,
        scheme: Seq<char>,
        host: Seq<char>,
        port: u16,
        token: Seq<char>,
    ) -> bool {
        if token.len() != TOKEN_LENGTH {
            r == Err::<GitLab, Error>(
                Error::Configuration(ConfigurationError::TokenLength(token.len() as usize)),
            )
        } else if host.len() > 0 && host[0] == '.' {
            r == Err::<GitLab, Error>(Error::Configuration(ConfigurationError::HostStartsWithDot))
        } else if host.len() > 0 && host.last() == '.' {
            r == Err::<GitLab, Error>(Error::Configuration(ConfigurationError::HostEndsWithDot))
        } else {
            Self::from_parsed(r, scheme, host, Some(port), token)
        }
    }

    /// The outcome of a configuration whose token and host passed their
    /// checks, once the parser has read the base URL.
    pub open spec fn from_parsed(
        r: Result<GitLab, Error>,
        scheme: Seq<char>,
        host: Seq<char>,
        port: Option<u16>,
        token: Seq<char>,
    ) -> bool {
        match parsed_url(base_text(scheme, host, port)) {
            None => r == Err::<GitLab, Error>(Error::Configuration(ConfigurationError::InvalidUrl)),
            Some(parts) => if parts.1 != Some(host) {
                r == Err::<GitLab, Error>(Error::Configuration(ConfigurationError::HostMismatch))
            } else {
                &&& r is Ok
                &&& r->Ok_0.scheme_view() == parts.0
                &&& r->Ok_0.host_view() == host
                &&& r->Ok_0.port_view() == parts.2
                &&& r->Ok_0.token_view() == token
            },
        }
    }

    /// A client for `scheme://domain:port`. The token must have exactly 20
    /// characters and the host must not start or end with `.`; the base URL
    /// must parse, with `domain` as its host.
    pub fn _new(scheme: &str, domain: &str, port: u16, private_token: &str) -> (r: Result<GitLab, Error>)
        ensures
            Self::configured(r, scheme@, domain@, port, private_token@),
            r is Ok ==> r->Ok_0.wf(),
    {
        let token_length = private_token.unicode_len();
        if token_length != TOKEN_LENGTH {
            return Err(Error::Configuration(ConfigurationError::TokenLength(token_length)));
        }
        let n = domain.unicode_len();
        if n > 0 && domain.get_char(0) == '.' {
            return Err(Error::Configuration(ConfigurationError::HostStartsWithDot));
        }
        if n > 0 && domain.get_char(n - 1) == '.' {
            return Err(Error::Configuration(ConfigurationError::HostEndsWithDot));
        }
        Self::configure(scheme, domain, Some(port), private_token)
    }

    /// A client over `https`, on port 443.
    pub fn new(domain: &str, private_token: &str) -> (r: Result<GitLab, Error>)
        ensures
            Self::configured(r, "https"@, domain@, 443, private_token@),
            r is Ok ==> r->Ok_0.wf(),
    {
        Self::_new("https", domain, 443, private_token)
    }

    /// A client over plain `http`, on port 80: the token travels in clear.
    pub fn new_insecure(domain: &str, private_token: &str) -> (r: Result<GitLab, Error>)
        ensures
            Self::configured(r, "http"@, domain@, 80, private_token@),
            r is Ok ==> r->Ok_0.wf(),
    {
        Self::_new("http", domain, 80, private_token)
    }

    /// The same client on another port.
    pub fn port(self, port: u16) -> (r: Result<GitLab, Error>)
        requires
            self.wf(),
        ensures
            Self::from_parsed(r, self.scheme_view(), self.host_view(), Some(port), self.token_view()),
            r is Ok ==> r->Ok_0.wf(),
    {
        Self::configure(self.scheme.as_str(), self.host.as_str(), Some(port), self.private_token.as_str())
    }

    /// The same client with another scheme; the port stays as it was.
    pub fn scheme(self, scheme: &str) -> (r: Result<GitLab, Error>)
        requires
            self.wf(),
        ensures
            Self::from_parsed(r, scheme@, self.host_view(), self.port_view(), self.token_view()),
            r is Ok ==> r->Ok_0.wf(),
    {
        Self::configure(scheme, self.host.as_str(), self.port, self.private_token.as_str())
    }

    /// The URL of a request for `query` (a resource path with its filters),
    /// with the private token appended as the last parameter.
    pub fn build_url(&self, query: &str) -> (r: String)
        ensures
            r@ == self.url_for(query@),
    {
        let mut url = String::new();
        push_base(&mut url, self.scheme.as_str(), self.host.as_str(), self.port);
        url.append(query);
        if contains_question_mark(url.as_str()) {
            proof {
                reveal_strlit("&");
            }
            url.append("&");
        } else {
            proof {
                reveal_strlit("?");
            }
            url.append("?");
        }
        url.append("private_token=");
        let token = form_encode(self.private_token.as_str());
        url.append(token.as_str());
        assert(url@ =~= self.url_for(query@));
        url
    }

    /// The URL of a request for `query`, followed by `page` and `per_page`
    /// when they are given.
    pub fn request_url(&self, query: &str, page: Option<u16>, per_page: Option<u16>) -> (r: String)
        ensures
            r@ == self.url_for(query@) + pagination_text(page, per_page),
    {
        let mut url = self.build_url(query);
        let ghost head = url@;
        if let Some(p) = page {
            url.append("&page=");
            push_nat(&mut url, p as u64);
        }
        if let Some(p) = per_page {
            url.append("&per_page=");
            push_nat(&mut url, p as u64);
        }
        assert(url@ =~= head + pagination_text(page, per_page));
        url
    }

    /// A description of the client that shows where it connects and hides
    /// the token.
    pub fn describe(&self) -> (r: String)
        ensures
            r@ == "GitLab { scheme: "@ + self.scheme_view() + ", domain: "@ + self.host_view()
                + ", port: "@ + match self.port_view() {
                Some(p) => nat_text(p as nat),
                None => "no port provided"@,
            } + ", private_token: XXXXXXXXXXXXXXXXXXXX }"@,
    {
        let mut out = String::from_str("GitLab { scheme: ");
        out.append(self.scheme.as_str());
        out.append(", domain: ");
        out.append(self.host.as_str());
        out.append(", port: ");
        match self.port {
            Some(p) => push_nat(&mut out, p as u64),
            None => out.append("no port provided"),
        }
        out.append(", private_token: XXXXXXXXXXXXXXXXXXXX }");
        out
    }

    /// The listing of projects, with no filter set.
    pub fn projects(&self) -> (r: crate::projects::Listing)
        ensures
            r.archived is None,
            r.visibility is None,
            r.order_by is None,
            r.sort is None,
            r.search@.len() == 0,
            r.simple is None,
    {
        crate::projects::Listing::new()
    }

    /// The lister of issues, of every project.
    pub fn issues(&self) -> (r: crate::issues::IssuesLister)
        ensures
            r.project is None,
    {
        crate::issues::IssuesLister::new()
    }

    /// The lister of the merge requests of project `project_id`, with no
    /// filter set.
    pub fn merge_requests(&self, project_id: i64) -> (r: crate::merge_requests::MergeRequestsLister)
        ensures
            r.id == project_id,
            r.iid is None,
            r.state is None,
            r.order_by is None,
            r.sort is None,
    {
        crate::merge_requests::MergeRequestsLister::new(project_id)
    }

    /// Parses the base URL of `scheme`, `host` and `port`, and keeps what the
    /// parser read when its host is `host`.
    fn configure(scheme: &str, host: &str, port: Option<u16>, token: &str) -> (r: Result<GitLab, Error>)
        ensures
            Self::from_parsed(r, scheme@, host@, port, token@),
    {
        let mut text = String::new();
        push_base(&mut text, scheme, host, port);
        assert(text@ =~= base_text(scheme@, host@, port));
        match parse_url(text.as_str()) {
            None => Err(Error::Configuration(ConfigurationError::InvalidUrl)),
            Some(parts) => {
                let host_string = String::from_str(host);
                let same_host = match &parts.host {
                    Some(h) => *h == host_string,
                    None => false,
                };
                if !same_host {
                    Err(Error::Configuration(ConfigurationError::HostMismatch))
                } else {
                    Ok(GitLab {
                        scheme: parts.scheme,
                        host: host_string,
                        port: parts.port,
                        private_token: String::from_str(token),
                    })
                }
            },
        }
    }
}

/// Success is status 200; any other status is an error that carries it.
pub fn check_status(status: u16) -> (r: Result<(), Error>)
    ensures
        status == 200 ==> r is Ok,
        status != 200 ==> r == Err::<(), Error>(Error::Status(status)),
{
    if status == 200 {
        Ok(())
    } else {
        Err(Error::Status(status))
    }
}

} // verus!
