use portability_mock::mocks::{
    first_match, GoogleMockAuthRules, HttpMethod, MockBody, MockRule, PathRule,
};
use portability_mock::settings::{GoogleSettings, SecretString};

fn google_settings() -> GoogleSettings {
    GoogleSettings {
        client_id: "google-client".to_string(),
        client_secret: SecretString::new("google-secret".to_string()),
        redirect_uri: "http://127.0.0.1:8000/callback".to_string(),
        auth_uri: "https://accounts.google.com/o/oauth2/auth".to_string(),
        access_token_uri: "http://host/token".to_string(),
        reset_authorization_uri: "http://host/revoke".to_string(),
        archive_base_uri: "http://127.0.0.1:6000".to_string(),
        initiate_archive_endpoint: "/jobs".to_string(),
        archive_jobs_path: "/jobs/status".to_string(),
        poll_archive_state_endpoint: "/jobs/state".to_string(),
    }
}

fn rules() -> GoogleMockAuthRules {
    GoogleMockAuthRules { settings: google_settings(), address: "127.0.0.1:6000".to_string() }
}

fn all_rules() -> Vec<MockRule> {
    let r = rules();
    vec![
        r.mock_convert_authorization_code_to_access_token(),
        r.mock_initiate_data_archive(),
        r.mock_get_archive_status(),
        r.mock_download_archive(),
        r.mock_revoke_token(),
    ]
}

#[test]
fn server_address_strips_the_scheme() {
    assert_eq!(google_settings().mock_server_address(), "127.0.0.1:6000");
    let mut other = google_settings();
    other.archive_base_uri = "127.0.0.1:6000".to_string();
    assert_eq!(other.mock_server_address(), "127.0.0.1:6000");
}

#[test]
fn token_rule_matches_the_last_path_segment() {
    let rule = rules().mock_convert_authorization_code_to_access_token();
    assert_eq!(rule.method, HttpMethod::Post);
    match &rule.path_rule {
        PathRule::Exact(p) => assert_eq!(p, "/token"),
        other => panic!("expected an exact path rule, got {:?}", other),
    }
    assert_eq!(rule.status, 200);
    let MockBody::Json(body) = &rule.body else {
        panic!("expected a JSON body")
    };
    assert!(body.starts_with("{\"access_token\":\"test_access_token\""));
    assert!(body.contains("\"token_type\":\"bearer\""));
    assert!(body.contains("\"expires_in\":3600"));
    // one scope per supported resource, space-delimited: seven in all
    let v: serde_json::Value = serde_json::from_str(body).unwrap();
    let scope = v.get("scope").unwrap().as_str().unwrap();
    assert_eq!(scope.split(' ').count(), 7);
}

#[test]
fn initiate_rule_carries_the_deterministic_payload() {
    let rule = rules().mock_initiate_data_archive();
    assert_eq!(rule.method, HttpMethod::Post);
    match &rule.path_rule {
        PathRule::Exact(p) => assert_eq!(p, "/jobs"),
        other => panic!("expected an exact path rule, got {:?}", other),
    }
    let MockBody::Json(body) = &rule.body else {
        panic!("expected a JSON body")
    };
    assert_eq!(
        body,
        "{\"archiveJobId\":\"myactivity.search_test_job_id\",\"accessType\":\"ACCESS_TYPE_ONE_TIME\"}"
    );
}

#[test]
fn status_rule_reports_completed_with_a_download_link() {
    let rule = rules().mock_get_archive_status();
    assert_eq!(rule.method, HttpMethod::Get);
    match &rule.path_rule {
        PathRule::Contains(p) => assert_eq!(p, "/jobs/status"),
        other => panic!("expected a containment path rule, got {:?}", other),
    }
    let MockBody::Json(body) = &rule.body else {
        panic!("expected a JSON body")
    };
    assert_eq!(
        body,
        "{\"state\":\"COMPLETED\",\"urls\":[\"http://127.0.0.1:6000/download_endpoint/some_download_id\"]}"
    );
    assert_eq!(rule.delay_millis, Some(0));
}

#[test]
fn download_rule_serves_the_fixed_zip() {
    let rule = rules().mock_download_archive();
    assert_eq!(rule.method, HttpMethod::Get);
    match &rule.path_rule {
        PathRule::Exact(p) => assert_eq!(p, "/download_endpoint/some_download_id"),
        other => panic!("expected an exact path rule, got {:?}", other),
    }
    match &rule.body {
        MockBody::ZipFile(f) => assert_eq!(f, "Portability.zip"),
        other => panic!("expected a zip-file body, got {:?}", other),
    }
}

#[test]
fn revoke_rule_answers_an_empty_ok() {
    let rule = rules().mock_revoke_token();
    assert_eq!(rule.method, HttpMethod::Post);
    match &rule.path_rule {
        PathRule::Exact(p) => assert_eq!(p, "/revoke"),
        other => panic!("expected an exact path rule, got {:?}", other),
    }
    assert_eq!(rule.status, 200);
    assert!(matches!(rule.body, MockBody::Empty));
}

#[test]
fn dispatch_picks_the_first_matching_rule() {
    let rules = all_rules();
    assert_eq!(first_match(&rules, HttpMethod::Post, "/token"), Some(0));
    assert_eq!(first_match(&rules, HttpMethod::Post, "/jobs"), Some(1));
    assert_eq!(first_match(&rules, HttpMethod::Get, "/jobs/status/abc123"), Some(2));
    assert_eq!(first_match(&rules, HttpMethod::Get, "/download_endpoint/some_download_id"), Some(3));
    assert_eq!(first_match(&rules, HttpMethod::Post, "/revoke"), Some(4));
}

#[test]
fn unmatched_requests_reach_no_rule() {
    let rules = all_rules();
    assert_eq!(first_match(&rules, HttpMethod::Get, "/definitely/unknown"), None);
    // right path, wrong method
    assert_eq!(first_match(&rules, HttpMethod::Post, "/jobs/status/abc123"), None);
    assert_eq!(first_match(&rules, HttpMethod::Get, "/token"), None);
    assert_eq!(first_match(&rules, HttpMethod::Get, "/jobs"), None);
}
