//! The end-to-end scenario, driven through the library's dispatch model: the
//! five rules are registered in order and each inbound request is answered by
//! the first matching rule, exactly as the HTTP mock engine dispatches.

use oauth2::TokenResponse;
use portability_mock::mocks::{
    first_match, GoogleMockAuthRules, HttpMethod, MockBody, MockRule, PathRule,
};
use portability_mock::settings::{GoogleSettings, SecretString};
use std::time::Duration;

fn google_settings(address: &str) -> GoogleSettings {
    GoogleSettings {
        client_id: "google-client".to_string(),
        client_secret: SecretString::new("google-secret".to_string()),
        redirect_uri: "http://127.0.0.1:8000/callback".to_string(),
        auth_uri: "https://accounts.google.com/o/oauth2/auth".to_string(),
        access_token_uri: "http://host/token".to_string(),
        reset_authorization_uri: "http://host/revoke".to_string(),
        archive_base_uri: format!("http://{}", address),
        initiate_archive_endpoint: "/jobs".to_string(),
        archive_jobs_path: "/jobs/status".to_string(),
        poll_archive_state_endpoint: "/jobs/state".to_string(),
    }
}

fn registered_rules(address: &str) -> Vec<MockRule> {
    let rules = GoogleMockAuthRules {
        settings: google_settings(address),
        address: address.to_string(),
    };
    vec![
        rules.mock_convert_authorization_code_to_access_token(),
        rules.mock_initiate_data_archive(),
        rules.mock_get_archive_status(),
        rules.mock_download_archive(),
        rules.mock_revoke_token(),
    ]
}

/// Serves one request as the mock engine does: the first matching rule
/// answers; no match means the engine's default not-found answer.
fn serve<'a>(rules: &'a [MockRule], method: HttpMethod, path: &str) -> Option<&'a MockRule> {
    let owned: Vec<MockRule> = rules.to_vec();
    first_match(&owned, method, path).map(|i| &rules[i])
}

#[test]
fn token_exchange_returns_bearer_token_with_seven_scopes() {
    let rules = registered_rules("127.0.0.1:6000");
    let rule = serve(&rules, HttpMethod::Post, "/token").expect("the token mock must answer");
    assert_eq!(rule.status, 200);
    let MockBody::Json(body) = &rule.body else {
        panic!("the token mock answers JSON")
    };
    // the canned body is a well-formed OAuth token response
    let token: oauth2::basic::BasicTokenResponse = serde_json::from_str(body.as_str()).unwrap();
    assert_eq!(token.access_token().secret(), "test_access_token");
    assert_eq!(token.expires_in(), Some(Duration::from_secs(3600)));
    assert_eq!(token.scopes().map(|s| s.len()), Some(7));
}

#[test]
fn archive_status_reports_completed_with_download_link() {
    let address = "127.0.0.1:6000";
    let rules = registered_rules(address);
    let rule =
        serve(&rules, HttpMethod::Get, "/jobs/status/abc123").expect("the status mock must answer");
    assert_eq!(rule.status, 200);
    let MockBody::Json(body) = &rule.body else {
        panic!("the status mock answers JSON")
    };
    let v: serde_json::Value = serde_json::from_str(body.as_str()).unwrap();
    let expected_text = format!(
        "{{\"state\":\"COMPLETED\",\"urls\":[\"http://{}/download_endpoint/some_download_id\"]}}",
        address
    );
    let expected: serde_json::Value = serde_json::from_str(expected_text.as_str()).unwrap();
    assert_eq!(v, expected);
}

#[test]
fn download_follows_the_status_link_and_serves_the_zip() {
    let address = "127.0.0.1:6000";
    let rules = registered_rules(address);
    // the link the status mock handed out, with its base stripped
    let rule = serve(&rules, HttpMethod::Get, "/download_endpoint/some_download_id")
        .expect("the download mock must answer");
    assert_eq!(rule.status, 200);
    match &rule.body {
        MockBody::ZipFile(f) => assert_eq!(f, "Portability.zip"),
        other => panic!("the download mock serves the fixed zip file, got {:?}", other),
    }
}

#[test]
fn initiation_and_revocation_answer_in_the_same_session() {
    let rules = registered_rules("127.0.0.1:6000");
    let initiate = serve(&rules, HttpMethod::Post, "/jobs").expect("the initiation mock answers");
    let MockBody::Json(body) = &initiate.body else {
        panic!("the initiation mock answers JSON")
    };
    let v: serde_json::Value = serde_json::from_str(body.as_str()).unwrap();
    assert_eq!(v.get("archiveJobId").unwrap().as_str(), Some("myactivity.search_test_job_id"));
    let revoke = serve(&rules, HttpMethod::Post, "/revoke").expect("the revocation mock answers");
    assert_eq!(revoke.status, 200);
    assert!(matches!(revoke.body, MockBody::Empty));
}

#[test]
fn unmatched_requests_are_not_served_ok() {
    let rules = registered_rules("127.0.0.1:6000");
    // a path that no rule knows
    assert!(serve(&rules, HttpMethod::Get, "/definitely/unknown").is_none());
    // the right paths with the wrong method reach no rule either
    assert!(serve(&rules, HttpMethod::Post, "/jobs/status/abc123").is_none());
    assert!(serve(&rules, HttpMethod::Get, "/token").is_none());
    assert!(serve(&rules, HttpMethod::Get, "/jobs").is_none());
    assert!(serve(&rules, HttpMethod::Post, "/download_endpoint/some_download_id").is_none());
}
