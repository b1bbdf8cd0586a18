//! The five canned request/response rules that the mock provider serves, as
//! plain verified values, and the first-match dispatch over them. Binding the
//! listener and handing these rules to the HTTP mock engine is I/O and lives
//! outside the library; everything the engine is told to do is computed and
//! pinned down here.

use crate::archive::{
    access_type_token, mock_job_id, payload_json, GoogleArchiveAccessType,
    GoogleInitiateArchiveResponsePayload,
};
use crate::resources::{scope_url, GoogleResource, Resource};
use crate::settings::GoogleSettings;
use crate::text::{contains_str, is_suffix_after_last, same_str, suffix_after_last};
use vstd::prelude::*;

verus! {

/// The method of an inbound request that a rule matches on.
#[derive(Debug, Clone, Copy, PartialEq, Eq, Structural)]
pub enum HttpMethod {
    Get,
    Post,
}

/// How a rule matches the path of an inbound request.
#[derive(Debug, Clone)]
pub enum PathRule {
    /// The request path equals the string.
    Exact(String),
    /// The request path contains the string anywhere.
    Contains(String),
}

/// The canned body a rule answers with.
#[derive(Debug, Clone)]
pub enum MockBody {
    /// An empty body.
    Empty,
    /// A JSON text.
    Json(String),
    /// The bytes of a local file, served as a zip archive.
    ZipFile(String),
}

/// One registered request/response rule: a static mapping, evaluated
/// independently per inbound request, with no state of its own.
#[derive(Debug, Clone)]
pub struct MockRule {
    pub method: HttpMethod,
    pub path_rule: PathRule,
    pub status: u16,
    pub body: MockBody,
    /// An artificial response delay, in milliseconds; a vestigial hook, only
    /// ever set to zero.
    pub delay_millis: Option<u64>,
}

/// Whether a path rule accepts a request path.
pub open spec fn path_rule_matches(rule: PathRule, path: Seq<char>) -> bool {
    match rule {
        PathRule::Exact(p) => path == p@,
        PathRule::Contains(sub) => crate::text::occurs(path, sub@),
    }
}

/// Whether a rule accepts a request.
pub open spec fn rule_matches(rule: MockRule, method: HttpMethod, path: Seq<char>) -> bool {
    rule.method == method && path_rule_matches(rule.path_rule, path)
}

impl MockRule {
    /// Whether this rule accepts the request.
    pub fn matches(&self, method: HttpMethod, path: &str) -> (r: bool)
        ensures
            r == rule_matches(*self, method, path@),
    {
        if !(self.method == method) {
            return false;
        }
        match &self.path_rule {
            PathRule::Exact(p) => same_str(path, p.as_str()),
            PathRule::Contains(sub) => contains_str(path, sub.as_str()),
        }
    }
}

/// The first rule that accepts the request, as the mock engine dispatches:
/// `None` exactly when no registered rule matches, in which case the engine
/// serves its default not-found answer rather than any canned response.
pub fn first_match(rules: &Vec<MockRule>, method: HttpMethod, path: &str) -> (r: Option<usize>)
    ensures
        match r {
            Some(i) => 0 <= i < rules@.len() && rule_matches(rules@[i as int], method, path@)
                && (forall|j: int| 0 <= j < i ==> !rule_matches(rules@[j], method, path@)),
            None => forall|j: int| 0 <= j < rules@.len() ==> !rule_matches(rules@[j], method, path@),
        },
{
    let n = rules.len();
    let mut i: usize = 0;
    while i < n
        invariant
            n == rules@.len(),
            0 <= i <= n,
            forall|j: int| 0 <= j < i ==> !rule_matches(rules@[j], method, path@),
        decreases n - i,
    {
        if rules[i].matches(method, path) {
            return Some(i);
        }
        i = i + 1;
    }
    None
}

/// The fixed bearer token that the token-exchange mock hands out.
pub open spec fn mock_access_token() -> Seq<char> {
    "test_access_token"@
}

/// The space-delimited scope list of the token-exchange mock: one scope URL
/// per supported resource, seven in all.
pub open spec fn token_scope_list() -> Seq<char> {
    scope_url(GoogleResource::MyActivitySearch) + " "@ + scope_url(GoogleResource::MyActivityYoutube) + " "@
        + scope_url(GoogleResource::MyActivityShopping) + " "@ + scope_url(GoogleResource::MyActivityMyAdCenter)
        + " "@ + scope_url(GoogleResource::MyActivityPlay) + " "@ + scope_url(GoogleResource::MyActivityMaps)
        + " "@ + scope_url(GoogleResource::YouTubeChannel)
}

/// The JSON body of the token-exchange mock: the fixed bearer access token,
/// an expiry of 3600 seconds, and the seven scopes.
pub open spec fn token_response_body() -> Seq<char> {
    "{\"access_token\":\"test_access_token\",\"token_type\":\"bearer\",\"expires_in\":3600,\"scope\":\""@
        + token_scope_list() + "\"}"@
}

/// The JSON body of the archive-status mock: the job is always reported
/// completed, with one download link pointing back at the mock's own address.
pub open spec fn status_response_body(address: Seq<char>) -> Seq<char> {
    "{\"state\":\"COMPLETED\",\"urls\":[\"http://"@ + address
        + "/download_endpoint/some_download_id\"]}"@
}

impl GoogleSettings {
    /// The address the mock server is reachable at: the configured archive
    /// base URI with its scheme prefix stripped.
    pub fn mock_server_address(&self) -> (r: String)
        ensures
            is_suffix_after_last(self.archive_base_uri@, "http://"@, r@),
    {
        proof {
            reveal_strlit("http://");
        }
        suffix_after_last(self.archive_base_uri.as_str(), "http://")
    }
}

/// Builds the five canned rules of the mocked provider from the loaded
/// configuration and the address the bound server reports.
pub struct GoogleMockAuthRules {
    pub settings: GoogleSettings,
    /// The bound server's own `host:port`, used in the download links that
    /// the archive-status mock hands out.
    pub address: String,
}

impl GoogleMockAuthRules {
    /// The token-exchange rule: a `POST` to the final path segment of the
    /// configured access-token URL answers the fixed OAuth token JSON.
    pub fn mock_convert_authorization_code_to_access_token(&self) -> (r: MockRule)
        ensures
            r.method == HttpMethod::Post,
            r.path_rule matches PathRule::Exact(p) && p@.len() >= 1 && p@[0] == '/'
                && is_suffix_after_last(
                self.settings.access_token_uri@,
                "/"@,
                p@.subrange(1, p@.len() as int),
            ),
            r.status == 200,
            r.body matches MockBody::Json(b) && b@ == token_response_body(),
            r.delay_millis is None,
    {
        proof {
            reveal_strlit("/");
        }
        let mut path: String = "/".to_owned();
        let segment = suffix_after_last(self.settings.access_token_uri.as_str(), "/");
        path.append(segment.as_str());
        let mut body: String =
            "{\"access_token\":\"test_access_token\",\"token_type\":\"bearer\",\"expires_in\":3600,\"scope\":\"".to_owned();
        body.append(GoogleResource::MyActivitySearch.scope_url().as_str());
        body.append(" ");
        body.append(GoogleResource::MyActivityYoutube.scope_url().as_str());
        body.append(" ");
        body.append(GoogleResource::MyActivityShopping.scope_url().as_str());
        body.append(" ");
        body.append(GoogleResource::MyActivityMyAdCenter.scope_url().as_str());
        body.append(" ");
        body.append(GoogleResource::MyActivityPlay.scope_url().as_str());
        body.append(" ");
        body.append(GoogleResource::MyActivityMaps.scope_url().as_str());
        body.append(" ");
        body.append(GoogleResource::YouTubeChannel.scope_url().as_str());
        body.append("\"}");
        proof {
            assert(path@.subrange(1, path@.len() as int) =~= segment@);
            assert(body@ =~= token_response_body());
        }
        MockRule {
            method: HttpMethod::Post,
            path_rule: PathRule::Exact(path),
            status: 200,
            body: MockBody::Json(body),
            delay_millis: None,
        }
    }

    /// The archive-initiation rule: a `POST` to the configured initiation
    /// endpoint answers the deterministic job payload for the search-activity
    /// resource, with the one-time access type.
    pub fn mock_initiate_data_archive(&self) -> (r: MockRule)
        ensures
            r.method == HttpMethod::Post,
            r.path_rule matches PathRule::Exact(p) && p@
                == self.settings.initiate_archive_endpoint@,
            r.status == 200,
            r.body matches MockBody::Json(b) && b@ == payload_json(
                mock_job_id(Resource::Google(GoogleResource::MyActivitySearch)),
                GoogleArchiveAccessType::OneTime,
            ),
            r.delay_millis is None,
    {
        let payload = GoogleInitiateArchiveResponsePayload::mock(
            &Resource::Google(GoogleResource::MyActivitySearch),
            Some(GoogleArchiveAccessType::OneTime),
        );
        MockRule {
            method: HttpMethod::Post,
            path_rule: PathRule::Exact(self.settings.initiate_archive_endpoint.clone()),
            status: 200,
            body: MockBody::Json(payload.to_json()),
            delay_millis: None,
        }
    }

    /// The archive-status rule: a `GET` whose path contains the configured
    /// jobs path answers that the job is completed, with a download link at
    /// this server's own address, and no artificial delay.
    pub fn mock_get_archive_status(&self) -> (r: MockRule)
        ensures
            r.method == HttpMethod::Get,
            r.path_rule matches PathRule::Contains(p) && p@ == self.settings.archive_jobs_path@,
            r.status == 200,
            r.body matches MockBody::Json(b) && b@ == status_response_body(self.address@),
            r.delay_millis == Some(0u64),
    {
        let mut body: String = "{\"state\":\"COMPLETED\",\"urls\":[\"http://".to_owned();
        body.append(self.address.as_str());
        body.append("/download_endpoint/some_download_id\"]}");
        MockRule {
            method: HttpMethod::Get,
            path_rule: PathRule::Contains(self.settings.archive_jobs_path.clone()),
            status: 200,
            body: MockBody::Json(body),
            delay_millis: Some(0),
        }
    }

    /// The archive-download rule: a `GET` to the fixed download path answers
    /// the bytes of the fixed local archive file, as a zip, with no
    /// artificial delay.
    pub fn mock_download_archive(&self) -> (r: MockRule)
        ensures
            r.method == HttpMethod::Get,
            r.path_rule matches PathRule::Exact(p) && p@
                == "/download_endpoint/some_download_id"@,
            r.status == 200,
            r.body matches MockBody::ZipFile(f) && f@ == "Portability.zip"@,
            r.delay_millis == Some(0u64),
    {
        MockRule {
            method: HttpMethod::Get,
            path_rule: PathRule::Exact("/download_endpoint/some_download_id".to_owned()),
            status: 200,
            body: MockBody::ZipFile("Portability.zip".to_owned()),
            delay_millis: Some(0),
        }
    }

    /// The token-revocation rule: a `POST` to the final path segment of the
    /// configured revocation URL answers an empty 200.
    pub fn mock_revoke_token(&self) -> (r: MockRule)
        ensures
            r.method == HttpMethod::Post,
            r.path_rule matches PathRule::Exact(p) && p@.len() >= 1 && p@[0] == '/'
                && is_suffix_after_last(
                self.settings.reset_authorization_uri@,
                "/"@,
                p@.subrange(1, p@.len() as int),
            ),
            r.status == 200,
            r.body is Empty,
            r.delay_millis is None,
    {
        proof {
            reveal_strlit("/");
        }
        let mut path: String = "/".to_owned();
        let segment = suffix_after_last(self.settings.reset_authorization_uri.as_str(), "/");
        path.append(segment.as_str());
        proof {
            assert(path@.subrange(1, path@.len() as int) =~= segment@);
        }
        MockRule {
            method: HttpMethod::Post,
            path_rule: PathRule::Exact(path),
            status: 200,
            body: MockBody::Empty,
            delay_millis: None,
        }
    }
}

} // verus!
