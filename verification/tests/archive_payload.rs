use portability_mock::archive::{GoogleArchiveAccessType, GoogleInitiateArchiveResponsePayload, JobId};
use portability_mock::resources::{GoogleResource, Resource};

fn all_resources() -> Vec<Resource> {
    vec![
        Resource::Google(GoogleResource::MyActivityYoutube),
        Resource::Google(GoogleResource::MyActivitySearch),
        Resource::Google(GoogleResource::MyActivityShopping),
        Resource::Google(GoogleResource::MyActivityPlay),
        Resource::Google(GoogleResource::MyActivityMyAdCenter),
        Resource::Google(GoogleResource::MyActivityMaps),
        Resource::Google(GoogleResource::YouTubeChannel),
    ]
}

#[test]
fn job_id_is_deterministic_per_resource() {
    for r in all_resources() {
        let a = GoogleInitiateArchiveResponsePayload::mock(&r, None);
        let b = GoogleInitiateArchiveResponsePayload::mock(&r, None);
        assert_eq!(a.archive_job_id().as_ref(), b.archive_job_id().as_ref());
    }
}

#[test]
fn job_ids_differ_between_resources() {
    let all = all_resources();
    for (i, a) in all.iter().enumerate() {
        for (j, b) in all.iter().enumerate() {
            if i != j {
                let pa = GoogleInitiateArchiveResponsePayload::mock(a, None);
                let pb = GoogleInitiateArchiveResponsePayload::mock(b, None);
                assert_ne!(pa.archive_job_id().as_ref(), pb.archive_job_id().as_ref());
            }
        }
    }
}

#[test]
fn job_id_is_short_string_plus_fixed_suffix() {
    let p = GoogleInitiateArchiveResponsePayload::mock(
        &Resource::Google(GoogleResource::MyActivitySearch),
        Some(GoogleArchiveAccessType::OneTime),
    );
    assert_eq!(p.archive_job_id().as_ref(), "myactivity.search_test_job_id");
}

#[test]
fn absent_access_type_defaults_to_one_time() {
    let p = GoogleInitiateArchiveResponsePayload::mock(
        &Resource::Google(GoogleResource::MyActivityMaps),
        None,
    );
    assert_eq!(p.access_type(), GoogleArchiveAccessType::OneTime);
    assert_eq!(
        GoogleInitiateArchiveResponsePayload::default_access_type(),
        GoogleArchiveAccessType::OneTime
    );
}

#[test]
fn explicit_access_type_is_kept() {
    let p = GoogleInitiateArchiveResponsePayload::mock(
        &Resource::Google(GoogleResource::MyActivityMaps),
        Some(GoogleArchiveAccessType::TimeBased),
    );
    assert_eq!(p.access_type(), GoogleArchiveAccessType::TimeBased);
}

#[test]
fn access_type_tokens_are_fixed() {
    assert_eq!(GoogleArchiveAccessType::OneTime.as_str(), "ACCESS_TYPE_ONE_TIME");
    assert_eq!(GoogleArchiveAccessType::TimeBased.as_str(), "ACCESS_TYPE_TIME_BASED");
}

#[test]
fn payload_encodes_to_exact_json() {
    let p = GoogleInitiateArchiveResponsePayload::mock(
        &Resource::Google(GoogleResource::MyActivitySearch),
        Some(GoogleArchiveAccessType::OneTime),
    );
    assert_eq!(
        p.to_json(),
        "{\"archiveJobId\":\"myactivity.search_test_job_id\",\"accessType\":\"ACCESS_TYPE_ONE_TIME\"}"
    );
}

#[test]
fn payload_json_round_trip() {
    for r in all_resources() {
        for a in [GoogleArchiveAccessType::OneTime, GoogleArchiveAccessType::TimeBased] {
            let p = GoogleInitiateArchiveResponsePayload::mock(&r, Some(a));
            let q = GoogleInitiateArchiveResponsePayload::parse_json(p.to_json().as_str())
                .expect("encoded payload must parse back");
            assert_eq!(q.archive_job_id().as_ref(), p.archive_job_id().as_ref());
            assert_eq!(q.access_type(), p.access_type());
        }
    }
}

#[test]
fn parsing_json_without_access_type_yields_one_time() {
    let p = GoogleInitiateArchiveResponsePayload::parse_json("{\"archiveJobId\":\"abc123\"}")
        .expect("payload without accessType must parse");
    assert_eq!(p.archive_job_id().as_ref(), "abc123");
    assert_eq!(p.access_type(), GoogleArchiveAccessType::OneTime);
}

#[test]
fn parsing_json_with_time_based_access_type() {
    let p = GoogleInitiateArchiveResponsePayload::parse_json(
        "{\"archiveJobId\":\"xyz\",\"accessType\":\"ACCESS_TYPE_TIME_BASED\"}",
    )
    .expect("payload with accessType must parse");
    assert_eq!(p.archive_job_id().as_ref(), "xyz");
    assert_eq!(p.access_type(), GoogleArchiveAccessType::TimeBased);
}

#[test]
fn malformed_payloads_are_rejected() {
    assert!(GoogleInitiateArchiveResponsePayload::parse_json("").is_none());
    assert!(GoogleInitiateArchiveResponsePayload::parse_json("{}").is_none());
    assert!(GoogleInitiateArchiveResponsePayload::parse_json("{\"archiveJobId\":\"x\"").is_none());
    assert!(GoogleInitiateArchiveResponsePayload::parse_json(
        "{\"archiveJobId\":\"x\",\"accessType\":\"SOMETHING_ELSE\"}"
    )
    .is_none());
    assert!(GoogleInitiateArchiveResponsePayload::parse_json("[\"archiveJobId\"]").is_none());
}

#[test]
fn job_id_wraps_its_string() {
    let id = JobId::from("some_job");
    assert_eq!(id.as_ref(), "some_job");
}
