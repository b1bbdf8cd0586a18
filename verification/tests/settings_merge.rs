use portability_mock::settings::{
    ConfigError, PartialAwsSettings, PartialGoogleSettings, PartialLinkedinSettings,
    PartialPinterestSettings, PartialPostgresSettings, PartialSentrySettings,
    PartialServerSettings, PartialSettings, PartialTikTokSettings, PartialWorkerSettings,
    PgSslMode, Settings,
};

fn full_base() -> PartialSettings {
    PartialSettings {
        server: PartialServerSettings {
            host: Some("127.0.0.1".to_string()),
            port: Some(8000),
            refresher_poll_interval_millis: Some(500),
            refresher_refresh_interval_secs: Some(60),
        },
        worker: PartialWorkerSettings {
            request_timeout_millis: Some(2000),
            polling_interval_millis: Some(100),
            loop_interval_millis: Some(250),
            max_tries: Some(3),
            max_polling_iterations: Some(10),
        },
        aws: PartialAwsSettings {
            region: Some("us-east-1".to_string()),
            bucket_name: Some("archives".to_string()),
            test_s3_endpoint_url: None,
        },
        google: PartialGoogleSettings {
            client_id: Some("google-client".to_string()),
            client_secret: Some("google-secret".to_string()),
            redirect_uri: Some("http://127.0.0.1:8000/callback".to_string()),
            auth_uri: Some("https://accounts.google.com/o/oauth2/auth".to_string()),
            access_token_uri: Some("http://127.0.0.1:6000/token".to_string()),
            reset_authorization_uri: Some("http://127.0.0.1:6000/revoke".to_string()),
            archive_base_uri: Some("http://127.0.0.1:6000".to_string()),
            initiate_archive_endpoint: Some("/jobs".to_string()),
            archive_jobs_path: Some("/jobs/status".to_string()),
            poll_archive_state_endpoint: Some("/jobs/state".to_string()),
        },
        tiktok: PartialTikTokSettings {
            client_key: Some("tiktok-key".to_string()),
            client_secret: Some("tiktok-secret".to_string()),
            redirect_uri: Some("http://127.0.0.1:8000/tiktok".to_string()),
            auth_uri: Some("https://www.tiktok.com/auth".to_string()),
            access_token_uri: Some("https://open.tiktokapis.com/token".to_string()),
            revocation_uri: Some("https://open.tiktokapis.com/revoke".to_string()),
            data_base_uri: Some("https://open.tiktokapis.com".to_string()),
            add_data_endpoint: Some("/data/add".to_string()),
            check_status_endpoint: Some("/data/status".to_string()),
            download_data_endpoint: Some("/data/download".to_string()),
        },
        linkedin: PartialLinkedinSettings {
            client_id: Some("linkedin-client".to_string()),
            client_secret: Some("linkedin-secret".to_string()),
            redirect_uri: Some("http://127.0.0.1:8000/linkedin".to_string()),
            auth_uri: Some("https://www.linkedin.com/oauth/v2/authorization".to_string()),
            access_token_uri: Some("https://www.linkedin.com/oauth/v2/accessToken".to_string()),
            revocation_uri: Some("https://www.linkedin.com/oauth/v2/revoke".to_string()),
            query_snapshot_uri: Some("https://api.linkedin.com/rest/memberSnapshotData".to_string()),
            query_changelog_uri: Some("https://api.linkedin.com/rest/memberChangeLogs".to_string()),
            api_version: Some("202312".to_string()),
            changelog_pagination_size: Some(50),
        },
        pinterest: PartialPinterestSettings {
            app_id: Some("pinterest-app".to_string()),
            app_secret_key: Some("pinterest-secret".to_string()),
            redirect_uri: Some("http://127.0.0.1:8000/pinterest".to_string()),
            auth_uri: Some("https://www.pinterest.com/oauth".to_string()),
            access_token_uri: Some("https://api.pinterest.com/v5/oauth/token".to_string()),
            revocation_uri: Some("https://api.pinterest.com/v5/oauth/revoke".to_string()),
            resource_base_uri: Some("https://api.pinterest.com/v5".to_string()),
        },
        postgres: PartialPostgresSettings {
            username: Some("postgres".to_string()),
            password: Some("password".to_string()),
            host: Some("127.0.0.1".to_string()),
            port: Some(5432),
            database_name: Some("portability".to_string()),
            max_connections: Some(5),
        },
        sentry: PartialSentrySettings {
            dsn: None,
            environment: Some("local".to_string()),
        },
    }
}

fn empty_overlay() -> PartialSettings {
    PartialSettings {
        server: PartialServerSettings {
            host: None,
            port: None,
            refresher_poll_interval_millis: None,
            refresher_refresh_interval_secs: None,
        },
        worker: PartialWorkerSettings {
            request_timeout_millis: None,
            polling_interval_millis: None,
            loop_interval_millis: None,
            max_tries: None,
            max_polling_iterations: None,
        },
        aws: PartialAwsSettings { region: None, bucket_name: None, test_s3_endpoint_url: None },
        google: PartialGoogleSettings {
            client_id: None,
            client_secret: None,
            redirect_uri: None,
            auth_uri: None,
            access_token_uri: None,
            reset_authorization_uri: None,
            archive_base_uri: None,
            initiate_archive_endpoint: None,
            archive_jobs_path: None,
            poll_archive_state_endpoint: None,
        },
        tiktok: PartialTikTokSettings {
            client_key: None,
            client_secret: None,
            redirect_uri: None,
            auth_uri: None,
            access_token_uri: None,
            revocation_uri: None,
            data_base_uri: None,
            add_data_endpoint: None,
            check_status_endpoint: None,
            download_data_endpoint: None,
        },
        linkedin: PartialLinkedinSettings {
            client_id: None,
            client_secret: None,
            redirect_uri: None,
            auth_uri: None,
            access_token_uri: None,
            revocation_uri: None,
            query_snapshot_uri: None,
            query_changelog_uri: None,
            api_version: None,
            changelog_pagination_size: None,
        },
        pinterest: PartialPinterestSettings {
            app_id: None,
            app_secret_key: None,
            redirect_uri: None,
            auth_uri: None,
            access_token_uri: None,
            revocation_uri: None,
            resource_base_uri: None,
        },
        postgres: PartialPostgresSettings {
            username: None,
            password: None,
            host: None,
            port: None,
            database_name: None,
            max_connections: None,
        },
        sentry: PartialSentrySettings { dsn: None, environment: None },
    }
}

#[test]
fn base_alone_loads_when_complete() {
    let s = Settings::from_layers(full_base(), empty_overlay()).expect("complete base must load");
    assert_eq!(s.server.host, "127.0.0.1");
    assert_eq!(s.server.port, 8000);
    assert_eq!(s.google.archive_base_uri, "http://127.0.0.1:6000");
    assert_eq!(s.google.initiate_archive_endpoint, "/jobs");
    assert_eq!(s.worker.max_tries, 3);
    assert_eq!(s.aws.test_s3_endpoint_url, None);
    assert_eq!(s.sentry.dsn, None);
    assert_eq!(s.sentry.environment, "local");
    assert_eq!(s.google.client_secret.expose_secret(), "google-secret");
}

#[test]
fn overlay_fields_take_precedence() {
    let mut overlay = empty_overlay();
    overlay.server.port = Some(9999);
    overlay.google.archive_base_uri = Some("http://127.0.0.1:7777".to_string());
    overlay.postgres.password = Some("load-password".to_string());
    overlay.sentry.dsn = Some("https://sentry.example/1".to_string());
    let s = Settings::from_layers(full_base(), overlay).expect("merged layers must load");
    // overlaid leaves come from the overlay
    assert_eq!(s.server.port, 9999);
    assert_eq!(s.google.archive_base_uri, "http://127.0.0.1:7777");
    assert_eq!(s.postgres.password.expose_secret(), "load-password");
    assert_eq!(s.sentry.dsn, Some("https://sentry.example/1".to_string()));
    // untouched leaves keep the base's values
    assert_eq!(s.server.host, "127.0.0.1");
    assert_eq!(s.google.access_token_uri, "http://127.0.0.1:6000/token");
    assert_eq!(s.postgres.username, "postgres");
}

#[test]
fn missing_required_leaf_fails_by_name() {
    let mut base = full_base();
    base.google.client_secret = None;
    let e = match Settings::from_layers(base, empty_overlay()) {
        Ok(_) => panic!("a layer pair missing a required leaf must not load"),
        Err(e) => e,
    };
    let ConfigError::MissingField(name) = e;
    assert_eq!(name, "client_secret");
}

#[test]
fn overlay_supplies_leaf_the_base_lacks() {
    let mut base = full_base();
    base.worker.max_tries = None;
    let mut overlay = empty_overlay();
    overlay.worker.max_tries = Some(7);
    let s = Settings::from_layers(base, overlay).expect("overlay completes the base");
    assert_eq!(s.worker.max_tries, 7);
}

#[test]
fn postgres_connection_parameters() {
    let s = Settings::from_layers(full_base(), empty_overlay()).unwrap();
    let without = s.postgres.without_db();
    assert_eq!(without.host, "127.0.0.1");
    assert_eq!(without.username, "postgres");
    assert_eq!(without.password.expose_secret(), "password");
    assert_eq!(without.port, 5432);
    assert_eq!(without.ssl_mode, PgSslMode::Prefer);
    assert_eq!(without.database, None);
    let with = s.postgres.with_db();
    assert_eq!(with.database, Some("portability".to_string()));
    assert_eq!(with.ssl_mode, PgSslMode::Prefer);
}
