//! The layered configuration model. A configuration is read from two sources,
//! a base and an overlay; each source yields a partial value in which every
//! leaf may be absent. Merging lets the overlay's leaves take precedence, and
//! finalizing fails exactly when a required leaf is still absent, so no
//! partial configuration is ever accepted.

use vstd::prelude::*;

verus! {

/// A configuration value that failed to finalize: a required leaf was absent
/// from both layers.
#[derive(Debug, Clone)]
pub enum ConfigError {
    MissingField(String),
}

impl ConfigError {
    /// The name of the missing leaf.
    pub fn field_name(&self) -> (r: &String)
        ensures
            *self matches ConfigError::MissingField(m) && r == m,
    {
        match self {
            ConfigError::MissingField(m) => m,
        }
    }
}

/// A secret configuration value. The raw string is reachable only through
/// `expose_secret`, so a secret is never written out by accident.
pub struct SecretString(String);

impl Clone for SecretString {
    /// Cloning preserves the secret.
    fn clone(&self) -> (r: Self)
        ensures
            r@ == self@,
    {
        SecretString(self.0.clone())
    }
}

impl View for SecretString {
    type V = Seq<char>;

    closed spec fn view(&self) -> Seq<char> {
        self.0@
    }
}

impl SecretString {
    /// Wraps a raw secret.
    pub fn new(value: String) -> (r: Self)
        ensures
            r@ == value@,
    {
        SecretString(value)
    }

    /// The raw secret, on explicit request.
    pub fn expose_secret(&self) -> (r: &String)
        ensures
            r@ == self@,
    {
        &self.0
    }
}

/// The overlay's leaf when it is present, the base's otherwise.
pub open spec fn merged<T>(base: Option<T>, overlay: Option<T>) -> Option<T> {
    if overlay is Some {
        overlay
    } else {
        base
    }
}

/// Picks a leaf as `merged` says.
fn pick<T>(base: Option<T>, overlay: Option<T>) -> (r: Option<T>)
    ensures
        r == merged(base, overlay),
{
    match overlay {
        Some(v) => Some(v),
        None => base,
    }
}

/// Takes a required leaf, or reports it missing by name.
fn require<T>(v: Option<T>, name: &str) -> (r: Result<T, ConfigError>)
    ensures
        match r {
            Ok(t) => v == Some(t),
            Err(e) => v is None && (e matches ConfigError::MissingField(m) && m@ == name@),
        },
{
    match v {
        Some(t) => Ok(t),
        None => Err(ConfigError::MissingField(name.to_owned())),
    }
}

/// Settings of the consuming backend's own HTTP server and token refresher.
#[derive(Debug, Clone)]
pub struct ServerSettings {
    pub host: String,
    pub port: u16,
    pub refresher_poll_interval_millis: u64,
    pub refresher_refresh_interval_secs: u64,
}

/// One layer's view of `ServerSettings`: every leaf may be absent.
#[derive(Debug, Clone)]
pub struct PartialServerSettings {
    pub host: Option<String>,
    pub port: Option<u16>,
    pub refresher_poll_interval_millis: Option<u64>,
    pub refresher_refresh_interval_secs: Option<u64>,
}

/// The leaf-wise merge of two layers, the overlay taking precedence.
pub open spec fn merged_server(
    base: PartialServerSettings,
    overlay: PartialServerSettings,
) -> PartialServerSettings {
    PartialServerSettings {
        host: merged(base.host, overlay.host),
        port: merged(base.port, overlay.port),
        refresher_poll_interval_millis: merged(
            base.refresher_poll_interval_millis,
            overlay.refresher_poll_interval_millis,
        ),
        refresher_refresh_interval_secs: merged(
            base.refresher_refresh_interval_secs,
            overlay.refresher_refresh_interval_secs,
        ),
    }
}

/// Whether the finalized value `s` holds exactly the leaves of the layer `p`.
pub open spec fn agrees_server(s: ServerSettings, p: PartialServerSettings) -> bool {
    &&& p.host == Some(s.host)
    &&& p.port == Some(s.port)
    &&& p.refresher_poll_interval_millis == Some(s.refresher_poll_interval_millis)
    &&& p.refresher_refresh_interval_secs == Some(s.refresher_refresh_interval_secs)
}

impl PartialServerSettings {
    /// Whether every required leaf is present.
    pub open spec fn complete(self) -> bool {
        &&& self.host is Some
        &&& self.port is Some
        &&& self.refresher_poll_interval_millis is Some
        &&& self.refresher_refresh_interval_secs is Some
    }

    /// The name of the first absent required leaf.
    pub open spec fn first_missing(self) -> Seq<char> {
        if self.host is None {
            "host"@
        } else if self.port is None {
            "port"@
        } else if self.refresher_poll_interval_millis is None {
            "refresher_poll_interval_millis"@
        } else {
            "refresher_refresh_interval_secs"@
        }
    }

    /// Merges two layers leaf by leaf, the overlay taking precedence.
    pub fn merge(self, overlay: Self) -> (r: Self)
        ensures
            r == merged_server(self, overlay),
    {
        PartialServerSettings {
            host: pick(self.host, overlay.host),
            port: pick(self.port, overlay.port),
            refresher_poll_interval_millis: pick(
                self.refresher_poll_interval_millis,
                overlay.refresher_poll_interval_millis,
            ),
            refresher_refresh_interval_secs: pick(
                self.refresher_refresh_interval_secs,
                overlay.refresher_refresh_interval_secs,
            ),
        }
    }

    /// Finalizes this layer; fails on the first absent required leaf.
    pub fn finalize(self) -> (r: Result<ServerSettings, ConfigError>)
        ensures
            match r {
                Ok(s) => self.complete() && agrees_server(s, self),
                Err(e) => !self.complete() && (e matches ConfigError::MissingField(m) && m@
                    == self.first_missing()),
            },
    {
        let host = match require(self.host, "host") {
            Ok(v) => v,
            Err(e) => return Err(e),
        };
        let port = match require(self.port, "port") {
            Ok(v) => v,
            Err(e) => return Err(e),
        };
        let refresher_poll_interval_millis = match require(
            self.refresher_poll_interval_millis,
            "refresher_poll_interval_millis",
        ) {
            Ok(v) => v,
            Err(e) => return Err(e),
        };
        let refresher_refresh_interval_secs = match require(
            self.refresher_refresh_interval_secs,
            "refresher_refresh_interval_secs",
        ) {
            Ok(v) => v,
            Err(e) => return Err(e),
        };
        Ok(
            ServerSettings {
                host,
                port,
                refresher_poll_interval_millis,
                refresher_refresh_interval_secs,
            },
        )
    }
}

/// Settings of the archive worker's polling and retry loop.
#[derive(Debug, Clone)]
pub struct WorkerSettings {
    pub request_timeout_millis: u64,
    pub polling_interval_millis: u64,
    pub loop_interval_millis: u64,
    pub max_tries: u8,
    pub max_polling_iterations: u8,
}

/// One layer's view of `WorkerSettings`: every leaf may be absent.
#[derive(Debug, Clone)]
pub struct PartialWorkerSettings {
    pub request_timeout_millis: Option<u64>,
    pub polling_interval_millis: Option<u64>,
    pub loop_interval_millis: Option<u64>,
    pub max_tries: Option<u8>,
    pub max_polling_iterations: Option<u8>,
}

/// The leaf-wise merge of two layers, the overlay taking precedence.
pub open spec fn merged_worker(base: PartialWorkerSettings, overlay: PartialWorkerSettings) -> PartialWorkerSettings {
    PartialWorkerSettings {
        request_timeout_millis: merged(base.request_timeout_millis, overlay.request_timeout_millis),
        polling_interval_millis: merged(base.polling_interval_millis, overlay.polling_interval_millis),
        loop_interval_millis: merged(base.loop_interval_millis, overlay.loop_interval_millis),
        max_tries: merged(base.max_tries, overlay.max_tries),
        max_polling_iterations: merged(base.max_polling_iterations, overlay.max_polling_iterations),
    }
}

/// Whether the finalized value `s` holds exactly the leaves of the layer `p`.
pub open spec fn agrees_worker(s: WorkerSettings, p: PartialWorkerSettings) -> bool {
    &&& p.request_timeout_millis == Some(s.request_timeout_millis)
    &&& p.polling_interval_millis == Some(s.polling_interval_millis)
    &&& p.loop_interval_millis == Some(s.loop_interval_millis)
    &&& p.max_tries == Some(s.max_tries)
    &&& p.max_polling_iterations == Some(s.max_polling_iterations)
}

impl PartialWorkerSettings {
    /// Whether every required leaf is present.
    pub open spec fn complete(self) -> bool {
        &&& self.request_timeout_millis is Some
        &&& self.polling_interval_millis is Some
        &&& self.loop_interval_millis is Some
        &&& self.max_tries is Some
        &&& self.max_polling_iterations is Some
    }

    /// The name of the first absent required leaf.
    pub open spec fn first_missing(self) -> Seq<char> {
        if self.request_timeout_millis is None {
            "request_timeout_millis"@
        } else if self.polling_interval_millis is None {
            "polling_interval_millis"@
        } else if self.loop_interval_millis is None {
            "loop_interval_millis"@
        } else if self.max_tries is None {
            "max_tries"@
        } else {
            "max_polling_iterations"@
        }
    }

    /// Merges two layers leaf by leaf, the overlay taking precedence.
    pub fn merge(self, overlay: Self) -> (r: Self)
        ensures
            r == merged_worker(self, overlay),
    {
        PartialWorkerSettings {
            request_timeout_millis: pick(self.request_timeout_millis, overlay.request_timeout_millis),
            polling_interval_millis: pick(self.polling_interval_millis, overlay.polling_interval_millis),
            loop_interval_millis: pick(self.loop_interval_millis, overlay.loop_interval_millis),
            max_tries: pick(self.max_tries, overlay.max_tries),
            max_polling_iterations: pick(self.max_polling_iterations, overlay.max_polling_iterations),
        }
    }

    /// Finalizes this layer; fails on the first absent required leaf.
    pub fn finalize(self) -> (r: Result<WorkerSettings, ConfigError>)
        ensures
            match r {
                Ok(s) => self.complete() && agrees_worker(s, self),
                Err(e) => !self.complete() && (e matches ConfigError::MissingField(m) && m@
                    == self.first_missing()),
            },
    {
        let request_timeout_millis = match require(self.request_timeout_millis, "request_timeout_millis") {
            Ok(v) => v,
            Err(e) => return Err(e),
        };
        let polling_interval_millis = match require(self.polling_interval_millis, "polling_interval_millis") {
            Ok(v) => v,
            Err(e) => return Err(e),
        };
        let loop_interval_millis = match require(self.loop_interval_millis, "loop_interval_millis") {
            Ok(v) => v,
            Err(e) => return Err(e),
        };
        let max_tries = match require(self.max_tries, "max_tries") {
            Ok(v) => v,
            Err(e) => return Err(e),
        };
        let max_polling_iterations = match require(self.max_polling_iterations, "max_polling_iterations") {
            Ok(v) => v,
            Err(e) => return Err(e),
        };
        Ok(
            WorkerSettings {
                request_timeout_millis,
                polling_interval_millis,
                loop_interval_millis,
                max_tries,
                max_polling_iterations,
            },
        )
    }
}

/// Settings of the S3 storage that archives are copied into.
#[derive(Debug, Clone)]
pub struct AwsSettings {
    pub region: String,
    pub bucket_name: String,
    pub test_s3_endpoint_url: Option<String>,
}

/// One layer's view of `AwsSettings`: every leaf may be absent.
#[derive(Debug, Clone)]
pub struct PartialAwsSettings {
    pub region: Option<String>,
    pub bucket_name: Option<String>,
    pub test_s3_endpoint_url: Option<String>,
}

/// The leaf-wise merge of two layers, the overlay taking precedence.
pub open spec fn merged_aws(base: PartialAwsSettings, overlay: PartialAwsSettings) -> PartialAwsSettings {
    PartialAwsSettings {
        region: merged(base.region, overlay.region),
        bucket_name: merged(base.bucket_name, overlay.bucket_name),
        test_s3_endpoint_url: merged(base.test_s3_endpoint_url, overlay.test_s3_endpoint_url),
    }
}

/// Whether the finalized value `s` holds exactly the leaves of the layer `p`.
pub open spec fn agrees_aws(s: AwsSettings, p: PartialAwsSettings) -> bool {
    &&& p.region == Some(s.region)
    &&& p.bucket_name == Some(s.bucket_name)
    &&& p.test_s3_endpoint_url == s.test_s3_endpoint_url
}

impl PartialAwsSettings {
    /// Whether every required leaf is present.
    pub open spec fn complete(self) -> bool {
        &&& self.region is Some
        &&& self.bucket_name is Some
    }

    /// The name of the first absent required leaf.
    pub open spec fn first_missing(self) -> Seq<char> {
        if self.region is None {
            "region"@
        } else {
            "bucket_name"@
        }
    }

    /// Merges two layers leaf by leaf, the overlay taking precedence.
    pub fn merge(self, overlay: Self) -> (r: Self)
        ensures
            r == merged_aws(self, overlay),
    {
        PartialAwsSettings {
            region: pick(self.region, overlay.region),
            bucket_name: pick(self.bucket_name, overlay.bucket_name),
            test_s3_endpoint_url: pick(self.test_s3_endpoint_url, overlay.test_s3_endpoint_url),
        }
    }

    /// Finalizes this layer; fails on the first absent required leaf.
    pub fn finalize(self) -> (r: Result<AwsSettings, ConfigError>)
        ensures
            match r {
                Ok(s) => self.complete() && agrees_aws(s, self),
                Err(e) => !self.complete() && (e matches ConfigError::MissingField(m) && m@
                    == self.first_missing()),
            },
    {
        let region = match require(self.region, "region") {
            Ok(v) => v,
            Err(e) => return Err(e),
        };
        let bucket_name = match require(self.bucket_name, "bucket_name") {
            Ok(v) => v,
            Err(e) => return Err(e),
        };
        Ok(
            AwsSettings {
                region,
                bucket_name,
                test_s3_endpoint_url: self.test_s3_endpoint_url,
            },
        )
    }
}

/// Settings of the Google OAuth and Data Portability endpoints.
#[derive(Clone)]
pub struct GoogleSettings {
    pub client_id: String,
    pub client_secret: SecretString,
    pub redirect_uri: String,
    pub auth_uri: String,
    pub access_token_uri: String,
    pub reset_authorization_uri: String,
    pub archive_base_uri: String,
    pub initiate_archive_endpoint: String,
    pub archive_jobs_path: String,
    pub poll_archive_state_endpoint: String,
}

/// One layer's view of `GoogleSettings`: every leaf may be absent.
#[derive(Debug, Clone)]
pub struct PartialGoogleSettings {
    pub client_id: Option<String>,
    pub client_secret: Option<String>,
    pub redirect_uri: Option<String>,
    pub auth_uri: Option<String>,
    pub access_token_uri: Option<String>,
    pub reset_authorization_uri: Option<String>,
    pub archive_base_uri: Option<String>,
    pub initiate_archive_endpoint: Option<String>,
    pub archive_jobs_path: Option<String>,
    pub poll_archive_state_endpoint: Option<String>,
}

/// The leaf-wise merge of two layers, the overlay taking precedence.
pub open spec fn merged_google(base: PartialGoogleSettings, overlay: PartialGoogleSettings) -> PartialGoogleSettings {
    PartialGoogleSettings {
        client_id: merged(base.client_id, overlay.client_id),
        client_secret: merged(base.client_secret, overlay.client_secret),
        redirect_uri: merged(base.redirect_uri, overlay.redirect_uri),
        auth_uri: merged(base.auth_uri, overlay.auth_uri),
        access_token_uri: merged(base.access_token_uri, overlay.access_token_uri),
        reset_authorization_uri: merged(base.reset_authorization_uri, overlay.reset_authorization_uri),
        archive_base_uri: merged(base.archive_base_uri, overlay.archive_base_uri),
        initiate_archive_endpoint: merged(base.initiate_archive_endpoint, overlay.initiate_archive_endpoint),
        archive_jobs_path: merged(base.archive_jobs_path, overlay.archive_jobs_path),
        poll_archive_state_endpoint: merged(base.poll_archive_state_endpoint, overlay.poll_archive_state_endpoint),
    }
}

/// Whether the finalized value `s` holds exactly the leaves of the layer `p`.
pub open spec fn agrees_google(s: GoogleSettings, p: PartialGoogleSettings) -> bool {
    &&& p.client_id == Some(s.client_id)
    &&& (p.client_secret matches Some(v) && v@ == s.client_secret@)
    &&& p.redirect_uri == Some(s.redirect_uri)
    &&& p.auth_uri == Some(s.auth_uri)
    &&& p.access_token_uri == Some(s.access_token_uri)
    &&& p.reset_authorization_uri == Some(s.reset_authorization_uri)
    &&& p.archive_base_uri == Some(s.archive_base_uri)
    &&& p.initiate_archive_endpoint == Some(s.initiate_archive_endpoint)
    &&& p.archive_jobs_path == Some(s.archive_jobs_path)
    &&& p.poll_archive_state_endpoint == Some(s.poll_archive_state_endpoint)
}

impl PartialGoogleSettings {
    /// Whether every required leaf is present.
    pub open spec fn complete(self) -> bool {
        &&& self.client_id is Some
        &&& self.client_secret is Some
        &&& self.redirect_uri is Some
        &&& self.auth_uri is Some
        &&& self.access_token_uri is Some
        &&& self.reset_authorization_uri is Some
        &&& self.archive_base_uri is Some
        &&& self.initiate_archive_endpoint is Some
        &&& self.archive_jobs_path is Some
        &&& self.poll_archive_state_endpoint is Some
    }

    /// The name of the first absent required leaf.
    pub open spec fn first_missing(self) -> Seq<char> {
        if self.client_id is None {
            "client_id"@
        } else if self.client_secret is None {
            "client_secret"@
        } else if self.redirect_uri is None {
            "redirect_uri"@
        } else if self.auth_uri is None {
            "auth_uri"@
        } else if self.access_token_uri is None {
            "access_token_uri"@
        } else if self.reset_authorization_uri is None {
            "reset_authorization_uri"@
        } else if self.archive_base_uri is None {
            "archive_base_uri"@
        } else if self.initiate_archive_endpoint is None {
            "initiate_archive_endpoint"@
        } else if self.archive_jobs_path is None {
            "archive_jobs_path"@
        } else {
            "poll_archive_state_endpoint"@
        }
    }

    /// Merges two layers leaf by leaf, the overlay taking precedence.
    pub fn merge(self, overlay: Self) -> (r: Self)
        ensures
            r == merged_google(self, overlay),
    {
        PartialGoogleSettings {
            client_id: pick(self.client_id, overlay.client_id),
            client_secret: pick(self.client_secret, overlay.client_secret),
            redirect_uri: pick(self.redirect_uri, overlay.redirect_uri),
            auth_uri: pick(self.auth_uri, overlay.auth_uri),
            access_token_uri: pick(self.access_token_uri, overlay.access_token_uri),
            reset_authorization_uri: pick(self.reset_authorization_uri, overlay.reset_authorization_uri),
            archive_base_uri: pick(self.archive_base_uri, overlay.archive_base_uri),
            initiate_archive_endpoint: pick(self.initiate_archive_endpoint, overlay.initiate_archive_endpoint),
            archive_jobs_path: pick(self.archive_jobs_path, overlay.archive_jobs_path),
            poll_archive_state_endpoint: pick(self.poll_archive_state_endpoint, overlay.poll_archive_state_endpoint),
        }
    }

    /// Finalizes this layer; fails on the first absent required leaf.
    pub fn finalize(self) -> (r: Result<GoogleSettings, ConfigError>)
        ensures
            match r {
                Ok(s) => self.complete() && agrees_google(s, self),
                Err(e) => !self.complete() && (e matches ConfigError::MissingField(m) && m@
                    == self.first_missing()),
            },
    {
        let client_id = match require(self.client_id, "client_id") {
            Ok(v) => v,
            Err(e) => return Err(e),
        };
        let client_secret = match require(self.client_secret, "client_secret") {
            Ok(v) => v,
            Err(e) => return Err(e),
        };
        let redirect_uri = match require(self.redirect_uri, "redirect_uri") {
            Ok(v) => v,
            Err(e) => return Err(e),
        };
        let auth_uri = match require(self.auth_uri, "auth_uri") {
            Ok(v) => v,
            Err(e) => return Err(e),
        };
        let access_token_uri = match require(self.access_token_uri, "access_token_uri") {
            Ok(v) => v,
            Err(e) => return Err(e),
        };
        let reset_authorization_uri = match require(self.reset_authorization_uri, "reset_authorization_uri") {
            Ok(v) => v,
            Err(e) => return Err(e),
        };
        let archive_base_uri = match require(self.archive_base_uri, "archive_base_uri") {
            Ok(v) => v,
            Err(e) => return Err(e),
        };
        let initiate_archive_endpoint = match require(self.initiate_archive_endpoint, "initiate_archive_endpoint") {
            Ok(v) => v,
            Err(e) => return Err(e),
        };
        let archive_jobs_path = match require(self.archive_jobs_path, "archive_jobs_path") {
            Ok(v) => v,
            Err(e) => return Err(e),
        };
        let poll_archive_state_endpoint = match require(self.poll_archive_state_endpoint, "poll_archive_state_endpoint") {
            Ok(v) => v,
            Err(e) => return Err(e),
        };
        Ok(
            GoogleSettings {
                client_id,
                client_secret: SecretString::new(client_secret),
                redirect_uri,
                auth_uri,
                access_token_uri,
                reset_authorization_uri,
                archive_base_uri,
                initiate_archive_endpoint,
                archive_jobs_path,
                poll_archive_state_endpoint,
            },
        )
    }
}

/// Settings of the TikTok OAuth and data endpoints.
#[derive(Clone)]
pub struct TikTokSettings {
    pub client_key: String,
    pub client_secret: SecretString,
    pub redirect_uri: String,
    pub auth_uri: String,
    pub access_token_uri: String,
    pub revocation_uri: String,
    pub data_base_uri: String,
    pub add_data_endpoint: String,
    pub check_status_endpoint: String,
    pub download_data_endpoint: String,
}

/// One layer's view of `TikTokSettings`: every leaf may be absent.
#[derive(Debug, Clone)]
pub struct PartialTikTokSettings {
    pub client_key: Option<String>,
    pub client_secret: Option<String>,
    pub redirect_uri: Option<String>,
    pub auth_uri: Option<String>,
    pub access_token_uri: Option<String>,
    pub revocation_uri: Option<String>,
    pub data_base_uri: Option<String>,
    pub add_data_endpoint: Option<String>,
    pub check_status_endpoint: Option<String>,
    pub download_data_endpoint: Option<String>,
}

/// The leaf-wise merge of two layers, the overlay taking precedence.
pub open spec fn merged_tiktok(base: PartialTikTokSettings, overlay: PartialTikTokSettings) -> PartialTikTokSettings {
    PartialTikTokSettings {
        client_key: merged(base.client_key, overlay.client_key),
        client_secret: merged(base.client_secret, overlay.client_secret),
        redirect_uri: merged(base.redirect_uri, overlay.redirect_uri),
        auth_uri: merged(base.auth_uri, overlay.auth_uri),
        access_token_uri: merged(base.access_token_uri, overlay.access_token_uri),
        revocation_uri: merged(base.revocation_uri, overlay.revocation_uri),
        data_base_uri: merged(base.data_base_uri, overlay.data_base_uri),
        add_data_endpoint: merged(base.add_data_endpoint, overlay.add_data_endpoint),
        check_status_endpoint: merged(base.check_status_endpoint, overlay.check_status_endpoint),
        download_data_endpoint: merged(base.download_data_endpoint, overlay.download_data_endpoint),
    }
}

/// Whether the finalized value `s` holds exactly the leaves of the layer `p`.
pub open spec fn agrees_tiktok(s: TikTokSettings, p: PartialTikTokSettings) -> bool {
    &&& p.client_key == Some(s.client_key)
    &&& (p.client_secret matches Some(v) && v@ == s.client_secret@)
    &&& p.redirect_uri == Some(s.redirect_uri)
    &&& p.auth_uri == Some(s.auth_uri)
    &&& p.access_token_uri == Some(s.access_token_uri)
    &&& p.revocation_uri == Some(s.revocation_uri)
    &&& p.data_base_uri == Some(s.data_base_uri)
    &&& p.add_data_endpoint == Some(s.add_data_endpoint)
    &&& p.check_status_endpoint == Some(s.check_status_endpoint)
    &&& p.download_data_endpoint == Some(s.download_data_endpoint)
}

impl PartialTikTokSettings {
    /// Whether every required leaf is present.
    pub open spec fn complete(self) -> bool {
        &&& self.client_key is Some
        &&& self.client_secret is Some
        &&& self.redirect_uri is Some
        &&& self.auth_uri is Some
        &&& self.access_token_uri is Some
        &&& self.revocation_uri is Some
        &&& self.data_base_uri is Some
        &&& self.add_data_endpoint is Some
        &&& self.check_status_endpoint is Some
        &&& self.download_data_endpoint is Some
    }

    /// The name of the first absent required leaf.
    pub open spec fn first_missing(self) -> Seq<char> {
        if self.client_key is None {
            "client_key"@
        } else if self.client_secret is None {
            "client_secret"@
        } else if self.redirect_uri is None {
            "redirect_uri"@
        } else if self.auth_uri is None {
            "auth_uri"@
        } else if self.access_token_uri is None {
            "access_token_uri"@
        } else if self.revocation_uri is None {
            "revocation_uri"@
        } else if self.data_base_uri is None {
            "data_base_uri"@
        } else if self.add_data_endpoint is None {
            "add_data_endpoint"@
        } else if self.check_status_endpoint is None {
            "check_status_endpoint"@
        } else {
            "download_data_endpoint"@
        }
    }

    /// Merges two layers leaf by leaf, the overlay taking precedence.
    pub fn merge(self, overlay: Self) -> (r: Self)
        ensures
            r == merged_tiktok(self, overlay),
    {
        PartialTikTokSettings {
            client_key: pick(self.client_key, overlay.client_key),
            client_secret: pick(self.client_secret, overlay.client_secret),
            redirect_uri: pick(self.redirect_uri, overlay.redirect_uri),
            auth_uri: pick(self.auth_uri, overlay.auth_uri),
            access_token_uri: pick(self.access_token_uri, overlay.access_token_uri),
            revocation_uri: pick(self.revocation_uri, overlay.revocation_uri),
            data_base_uri: pick(self.data_base_uri, overlay.data_base_uri),
            add_data_endpoint: pick(self.add_data_endpoint, overlay.add_data_endpoint),
            check_status_endpoint: pick(self.check_status_endpoint, overlay.check_status_endpoint),
            download_data_endpoint: pick(self.download_data_endpoint, overlay.download_data_endpoint),
        }
    }

    /// Finalizes this layer; fails on the first absent required leaf.
    pub fn finalize(self) -> (r: Result<TikTokSettings, ConfigError>)
        ensures
            match r {
                Ok(s) => self.complete() && agrees_tiktok(s, self),
                Err(e) => !self.complete() && (e matches ConfigError::MissingField(m) && m@
                    == self.first_missing()),
            },
    {
        let client_key = match require(self.client_key, "client_key") {
            Ok(v) => v,
            Err(e) => return Err(e),
        };
        let client_secret = match require(self.client_secret, "client_secret") {
            Ok(v) => v,
            Err(e) => return Err(e),
        };
        let redirect_uri = match require(self.redirect_uri, "redirect_uri") {
            Ok(v) => v,
            Err(e) => return Err(e),
        };
        let auth_uri = match require(self.auth_uri, "auth_uri") {
            Ok(v) => v,
            Err(e) => return Err(e),
        };
        let access_token_uri = match require(self.access_token_uri, "access_token_uri") {
            Ok(v) => v,
            Err(e) => return Err(e),
        };
        let revocation_uri = match require(self.revocation_uri, "revocation_uri") {
            Ok(v) => v,
            Err(e) => return Err(e),
        };
        let data_base_uri = match require(self.data_base_uri, "data_base_uri") {
            Ok(v) => v,
            Err(e) => return Err(e),
        };
        let add_data_endpoint = match require(self.add_data_endpoint, "add_data_endpoint") {
            Ok(v) => v,
            Err(e) => return Err(e),
        };
        let check_status_endpoint = match require(self.check_status_endpoint, "check_status_endpoint") {
            Ok(v) => v,
            Err(e) => return Err(e),
        };
        let download_data_endpoint = match require(self.download_data_endpoint, "download_data_endpoint") {
            Ok(v) => v,
            Err(e) => return Err(e),
        };
        Ok(
            TikTokSettings {
                client_key,
                client_secret: SecretString::new(client_secret),
                redirect_uri,
                auth_uri,
                access_token_uri,
                revocation_uri,
                data_base_uri,
                add_data_endpoint,
                check_status_endpoint,
                download_data_endpoint,
            },
        )
    }
}

/// Settings of the LinkedIn OAuth and snapshot endpoints.
#[derive(Clone)]
pub struct LinkedinSettings {
    pub client_id: String,
    pub client_secret: SecretString,
    pub redirect_uri: String,
    pub auth_uri: String,
    pub access_token_uri: String,
    pub revocation_uri: String,
    pub query_snapshot_uri: String,
    pub query_changelog_uri: String,
    pub api_version: String,
    pub changelog_pagination_size: usize,
}

/// One layer's view of `LinkedinSettings`: every leaf may be absent.
#[derive(Debug, Clone)]
pub struct PartialLinkedinSettings {
    pub client_id: Option<String>,
    pub client_secret: Option<String>,
    pub redirect_uri: Option<String>,
    pub auth_uri: Option<String>,
    pub access_token_uri: Option<String>,
    pub revocation_uri: Option<String>,
    pub query_snapshot_uri: Option<String>,
    pub query_changelog_uri: Option<String>,
    pub api_version: Option<String>,
    pub changelog_pagination_size: Option<usize>,
}

/// The leaf-wise merge of two layers, the overlay taking precedence.
pub open spec fn merged_linkedin(base: PartialLinkedinSettings, overlay: PartialLinkedinSettings) -> PartialLinkedinSettings {
    PartialLinkedinSettings {
        client_id: merged(base.client_id, overlay.client_id),
        client_secret: merged(base.client_secret, overlay.client_secret),
        redirect_uri: merged(base.redirect_uri, overlay.redirect_uri),
        auth_uri: merged(base.auth_uri, overlay.auth_uri),
        access_token_uri: merged(base.access_token_uri, overlay.access_token_uri),
        revocation_uri: merged(base.revocation_uri, overlay.revocation_uri),
        query_snapshot_uri: merged(base.query_snapshot_uri, overlay.query_snapshot_uri),
        query_changelog_uri: merged(base.query_changelog_uri, overlay.query_changelog_uri),
        api_version: merged(base.api_version, overlay.api_version),
        changelog_pagination_size: merged(base.changelog_pagination_size, overlay.changelog_pagination_size),
    }
}

/// Whether the finalized value `s` holds exactly the leaves of the layer `p`.
pub open spec fn agrees_linkedin(s: LinkedinSettings, p: PartialLinkedinSettings) -> bool {
    &&& p.client_id == Some(s.client_id)
    &&& (p.client_secret matches Some(v) && v@ == s.client_secret@)
    &&& p.redirect_uri == Some(s.redirect_uri)
    &&& p.auth_uri == Some(s.auth_uri)
    &&& p.access_token_uri == Some(s.access_token_uri)
    &&& p.revocation_uri == Some(s.revocation_uri)
    &&& p.query_snapshot_uri == Some(s.query_snapshot_uri)
    &&& p.query_changelog_uri == Some(s.query_changelog_uri)
    &&& p.api_version == Some(s.api_version)
    &&& p.changelog_pagination_size == Some(s.changelog_pagination_size)
}

impl PartialLinkedinSettings {
    /// Whether every required leaf is present.
    pub open spec fn complete(self) -> bool {
        &&& self.client_id is Some
        &&& self.client_secret is Some
        &&& self.redirect_uri is Some
        &&& self.auth_uri is Some
        &&& self.access_token_uri is Some
        &&& self.revocation_uri is Some
        &&& self.query_snapshot_uri is Some
        &&& self.query_changelog_uri is Some
        &&& self.api_version is Some
        &&& self.changelog_pagination_size is Some
    }

    /// The name of the first absent required leaf.
    pub open spec fn first_missing(self) -> Seq<char> {
        if self.client_id is None {
            "client_id"@
        } else if self.client_secret is None {
            "client_secret"@
        } else if self.redirect_uri is None {
            "redirect_uri"@
        } else if self.auth_uri is None {
            "auth_uri"@
        } else if self.access_token_uri is None {
            "access_token_uri"@
        } else if self.revocation_uri is None {
            "revocation_uri"@
        } else if self.query_snapshot_uri is None {
            "query_snapshot_uri"@
        } else if self.query_changelog_uri is None {
            "query_changelog_uri"@
        } else if self.api_version is None {
            "api_version"@
        } else {
            "changelog_pagination_size"@
        }
    }

    /// Merges two layers leaf by leaf, the overlay taking precedence.
    pub fn merge(self, overlay: Self) -> (r: Self)
        ensures
            r == merged_linkedin(self, overlay),
    {
        PartialLinkedinSettings {
            client_id: pick(self.client_id, overlay.client_id),
            client_secret: pick(self.client_secret, overlay.client_secret),
            redirect_uri: pick(self.redirect_uri, overlay.redirect_uri),
            auth_uri: pick(self.auth_uri, overlay.auth_uri),
            access_token_uri: pick(self.access_token_uri, overlay.access_token_uri),
            revocation_uri: pick(self.revocation_uri, overlay.revocation_uri),
            query_snapshot_uri: pick(self.query_snapshot_uri, overlay.query_snapshot_uri),
            query_changelog_uri: pick(self.query_changelog_uri, overlay.query_changelog_uri),
            api_version: pick(self.api_version, overlay.api_version),
            changelog_pagination_size: pick(self.changelog_pagination_size, overlay.changelog_pagination_size),
        }
    }

    /// Finalizes this layer; fails on the first absent required leaf.
    pub fn finalize(self) -> (r: Result<LinkedinSettings, ConfigError>)
        ensures
            match r {
                Ok(s) => self.complete() && agrees_linkedin(s, self),
                Err(e) => !self.complete() && (e matches ConfigError::MissingField(m) && m@
                    == self.first_missing()),
            },
    {
        let client_id = match require(self.client_id, "client_id") {
            Ok(v) => v,
            Err(e) => return Err(e),
        };
        let client_secret = match require(self.client_secret, "client_secret") {
            Ok(v) => v,
            Err(e) => return Err(e),
        };
        let redirect_uri = match require(self.redirect_uri, "redirect_uri") {
            Ok(v) => v,
            Err(e) => return Err(e),
        };
        let auth_uri = match require(self.auth_uri, "auth_uri") {
            Ok(v) => v,
            Err(e) => return Err(e),
        };
        let access_token_uri = match require(self.access_token_uri, "access_token_uri") {
            Ok(v) => v,
            Err(e) => return Err(e),
        };
        let revocation_uri = match require(self.revocation_uri, "revocation_uri") {
            Ok(v) => v,
            Err(e) => return Err(e),
        };
        let query_snapshot_uri = match require(self.query_snapshot_uri, "query_snapshot_uri") {
            Ok(v) => v,
            Err(e) => return Err(e),
        };
        let query_changelog_uri = match require(self.query_changelog_uri, "query_changelog_uri") {
            Ok(v) => v,
            Err(e) => return Err(e),
        };
        let api_version = match require(self.api_version, "api_version") {
            Ok(v) => v,
            Err(e) => return Err(e),
        };
        let changelog_pagination_size = match require(self.changelog_pagination_size, "changelog_pagination_size") {
            Ok(v) => v,
            Err(e) => return Err(e),
        };
        Ok(
            LinkedinSettings {
                client_id,
                client_secret: SecretString::new(client_secret),
                redirect_uri,
                auth_uri,
                access_token_uri,
                revocation_uri,
                query_snapshot_uri,
                query_changelog_uri,
                api_version,
                changelog_pagination_size,
            },
        )
    }
}

/// Settings of the Pinterest OAuth and resource endpoints.
#[derive(Clone)]
pub struct PinterestSettings {
    pub app_id: String,
    pub app_secret_key: SecretString,
    pub redirect_uri: String,
    pub auth_uri: String,
    pub access_token_uri: String,
    pub revocation_uri: String,
    pub resource_base_uri: String,
}

/// One layer's view of `PinterestSettings`: every leaf may be absent.
#[derive(Debug, Clone)]
pub struct PartialPinterestSettings {
    pub app_id: Option<String>,
    pub app_secret_key: Option<String>,
    pub redirect_uri: Option<String>,
    pub auth_uri: Option<String>,
    pub access_token_uri: Option<String>,
    pub revocation_uri: Option<String>,
    pub resource_base_uri: Option<String>,
}

/// The leaf-wise merge of two layers, the overlay taking precedence.
pub open spec fn merged_pinterest(base: PartialPinterestSettings, overlay: PartialPinterestSettings) -> PartialPinterestSettings {
    PartialPinterestSettings {
        app_id: merged(base.app_id, overlay.app_id),
        app_secret_key: merged(base.app_secret_key, overlay.app_secret_key),
        redirect_uri: merged(base.redirect_uri, overlay.redirect_uri),
        auth_uri: merged(base.auth_uri, overlay.auth_uri),
        access_token_uri: merged(base.access_token_uri, overlay.access_token_uri),
        revocation_uri: merged(base.revocation_uri, overlay.revocation_uri),
        resource_base_uri: merged(base.resource_base_uri, overlay.resource_base_uri),
    }
}

/// Whether the finalized value `s` holds exactly the leaves of the layer `p`.
pub open spec fn agrees_pinterest(s: PinterestSettings, p: PartialPinterestSettings) -> bool {
    &&& p.app_id == Some(s.app_id)
    &&& (p.app_secret_key matches Some(v) && v@ == s.app_secret_key@)
    &&& p.redirect_uri == Some(s.redirect_uri)
    &&& p.auth_uri == Some(s.auth_uri)
    &&& p.access_token_uri == Some(s.access_token_uri)
    &&& p.revocation_uri == Some(s.revocation_uri)
    &&& p.resource_base_uri == Some(s.resource_base_uri)
}

impl PartialPinterestSettings {
    /// Whether every required leaf is present.
    pub open spec fn complete(self) -> bool {
        &&& self.app_id is Some
        &&& self.app_secret_key is Some
        &&& self.redirect_uri is Some
        &&& self.auth_uri is Some
        &&& self.access_token_uri is Some
        &&& self.revocation_uri is Some
        &&& self.resource_base_uri is Some
    }

    /// The name of the first absent required leaf.
    pub open spec fn first_missing(self) -> Seq<char> {
        if self.app_id is None {
            "app_id"@
        } else if self.app_secret_key is None {
            "app_secret_key"@
        } else if self.redirect_uri is None {
            "redirect_uri"@
        } else if self.auth_uri is None {
            "auth_uri"@
        } else if self.access_token_uri is None {
            "access_token_uri"@
        } else if self.revocation_uri is None {
            "revocation_uri"@
        } else {
            "resource_base_uri"@
        }
    }

    /// Merges two layers leaf by leaf, the overlay taking precedence.
    pub fn merge(self, overlay: Self) -> (r: Self)
        ensures
            r == merged_pinterest(self, overlay),
    {
        PartialPinterestSettings {
            app_id: pick(self.app_id, overlay.app_id),
            app_secret_key: pick(self.app_secret_key, overlay.app_secret_key),
            redirect_uri: pick(self.redirect_uri, overlay.redirect_uri),
            auth_uri: pick(self.auth_uri, overlay.auth_uri),
            access_token_uri: pick(self.access_token_uri, overlay.access_token_uri),
            revocation_uri: pick(self.revocation_uri, overlay.revocation_uri),
            resource_base_uri: pick(self.resource_base_uri, overlay.resource_base_uri),
        }
    }

    /// Finalizes this layer; fails on the first absent required leaf.
    pub fn finalize(self) -> (r: Result<PinterestSettings, ConfigError>)
        ensures
            match r {
                Ok(s) => self.complete() && agrees_pinterest(s, self),
                Err(e) => !self.complete() && (e matches ConfigError::MissingField(m) && m@
                    == self.first_missing()),
            },
    {
        let app_id = match require(self.app_id, "app_id") {
            Ok(v) => v,
            Err(e) => return Err(e),
        };
        let app_secret_key = match require(self.app_secret_key, "app_secret_key") {
            Ok(v) => v,
            Err(e) => return Err(e),
        };
        let redirect_uri = match require(self.redirect_uri, "redirect_uri") {
            Ok(v) => v,
            Err(e) => return Err(e),
        };
        let auth_uri = match require(self.auth_uri, "auth_uri") {
            Ok(v) => v,
            Err(e) => return Err(e),
        };
        let access_token_uri = match require(self.access_token_uri, "access_token_uri") {
            Ok(v) => v,
            Err(e) => return Err(e),
        };
        let revocation_uri = match require(self.revocation_uri, "revocation_uri") {
            Ok(v) => v,
            Err(e) => return Err(e),
        };
        let resource_base_uri = match require(self.resource_base_uri, "resource_base_uri") {
            Ok(v) => v,
            Err(e) => return Err(e),
        };
        Ok(
            PinterestSettings {
                app_id,
                app_secret_key: SecretString::new(app_secret_key),
                redirect_uri,
                auth_uri,
                access_token_uri,
                revocation_uri,
                resource_base_uri,
            },
        )
    }
}

/// Settings of the Postgres database the backend records jobs in.
#[derive(Clone)]
pub struct PostgresSettings {
    pub username: String,
    pub password: SecretString,
    pub host: String,
    pub port: u16,
    pub database_name: String,
    pub max_connections: u32,
}

/// One layer's view of `PostgresSettings`: every leaf may be absent.
#[derive(Debug, Clone)]
pub struct PartialPostgresSettings {
    pub username: Option<String>,
    pub password: Option<String>,
    pub host: Option<String>,
    pub port: Option<u16>,
    pub database_name: Option<String>,
    pub max_connections: Option<u32>,
}

/// The leaf-wise merge of two layers, the overlay taking precedence.
pub open spec fn merged_postgres(base: PartialPostgresSettings, overlay: PartialPostgresSettings) -> PartialPostgresSettings {
    PartialPostgresSettings {
        username: merged(base.username, overlay.username),
        password: merged(base.password, overlay.password),
        host: merged(base.host, overlay.host),
        port: merged(base.port, overlay.port),
        database_name: merged(base.database_name, overlay.database_name),
        max_connections: merged(base.max_connections, overlay.max_connections),
    }
}

/// Whether the finalized value `s` holds exactly the leaves of the layer `p`.
pub open spec fn agrees_postgres(s: PostgresSettings, p: PartialPostgresSettings) -> bool {
    &&& p.username == Some(s.username)
    &&& (p.password matches Some(v) && v@ == s.password@)
    &&& p.host == Some(s.host)
    &&& p.port == Some(s.port)
    &&& p.database_name == Some(s.database_name)
    &&& p.max_connections == Some(s.max_connections)
}

impl PartialPostgresSettings {
    /// Whether every required leaf is present.
    pub open spec fn complete(self) -> bool {
        &&& self.username is Some
        &&& self.password is Some
        &&& self.host is Some
        &&& self.port is Some
        &&& self.database_name is Some
        &&& self.max_connections is Some
    }

    /// The name of the first absent required leaf.
    pub open spec fn first_missing(self) -> Seq<char> {
        if self.username is None {
            "username"@
        } else if self.password is None {
            "password"@
        } else if self.host is None {
            "host"@
        } else if self.port is None {
            "port"@
        } else if self.database_name is None {
            "database_name"@
        } else {
            "max_connections"@
        }
    }

    /// Merges two layers leaf by leaf, the overlay taking precedence.
    pub fn merge(self, overlay: Self) -> (r: Self)
        ensures
            r == merged_postgres(self, overlay),
    {
        PartialPostgresSettings {
            username: pick(self.username, overlay.username),
            password: pick(self.password, overlay.password),
            host: pick(self.host, overlay.host),
            port: pick(self.port, overlay.port),
            database_name: pick(self.database_name, overlay.database_name),
            max_connections: pick(self.max_connections, overlay.max_connections),
        }
    }

    /// Finalizes this layer; fails on the first absent required leaf.
    pub fn finalize(self) -> (r: Result<PostgresSettings, ConfigError>)
        ensures
            match r {
                Ok(s) => self.complete() && agrees_postgres(s, self),
                Err(e) => !self.complete() && (e matches ConfigError::MissingField(m) && m@
                    == self.first_missing()),
            },
    {
        let username = match require(self.username, "username") {
            Ok(v) => v,
            Err(e) => return Err(e),
        };
        let password = match require(self.password, "password") {
            Ok(v) => v,
            Err(e) => return Err(e),
        };
        let host = match require(self.host, "host") {
            Ok(v) => v,
            Err(e) => return Err(e),
        };
        let port = match require(self.port, "port") {
            Ok(v) => v,
            Err(e) => return Err(e),
        };
        let database_name = match require(self.database_name, "database_name") {
            Ok(v) => v,
            Err(e) => return Err(e),
        };
        let max_connections = match require(self.max_connections, "max_connections") {
            Ok(v) => v,
            Err(e) => return Err(e),
        };
        Ok(
            PostgresSettings {
                username,
                password: SecretString::new(password),
                host,
                port,
                database_name,
                max_connections,
            },
        )
    }
}

/// Settings of error reporting.
#[derive(Debug, Clone)]
pub struct SentrySettings {
    pub dsn: Option<String>,
    pub environment: String,
}

/// One layer's view of `SentrySettings`: every leaf may be absent.
#[derive(Debug, Clone)]
pub struct PartialSentrySettings {
    pub dsn: Option<String>,
    pub environment: Option<String>,
}

/// The leaf-wise merge of two layers, the overlay taking precedence.
pub open spec fn merged_sentry(base: PartialSentrySettings, overlay: PartialSentrySettings) -> PartialSentrySettings {
    PartialSentrySettings {
        dsn: merged(base.dsn, overlay.dsn),
        environment: merged(base.environment, overlay.environment),
    }
}

/// Whether the finalized value `s` holds exactly the leaves of the layer `p`.
pub open spec fn agrees_sentry(s: SentrySettings, p: PartialSentrySettings) -> bool {
    &&& p.dsn == s.dsn
    &&& p.environment == Some(s.environment)
}

impl PartialSentrySettings {
    /// Whether every required leaf is present.
    pub open spec fn complete(self) -> bool {
        &&& self.environment is Some
    }

    /// The name of the first absent required leaf.
    pub open spec fn first_missing(self) -> Seq<char> {
        "environment"@
    }

    /// Merges two layers leaf by leaf, the overlay taking precedence.
    pub fn merge(self, overlay: Self) -> (r: Self)
        ensures
            r == merged_sentry(self, overlay),
    {
        PartialSentrySettings {
            dsn: pick(self.dsn, overlay.dsn),
            environment: pick(self.environment, overlay.environment),
        }
    }

    /// Finalizes this layer; fails on the first absent required leaf.
    pub fn finalize(self) -> (r: Result<SentrySettings, ConfigError>)
        ensures
            match r {
                Ok(s) => self.complete() && agrees_sentry(s, self),
                Err(e) => !self.complete() && (e matches ConfigError::MissingField(m) && m@
                    == self.first_missing()),
            },
    {
        let environment = match require(self.environment, "environment") {
            Ok(v) => v,
            Err(e) => return Err(e),
        };
        Ok(
            SentrySettings {
                dsn: self.dsn,
                environment,
            },
        )
    }
}

/// How a Postgres connection negotiates TLS.
#[derive(Debug, Clone, Copy, PartialEq, Eq, Structural)]
pub enum PgSslMode {
    Disable,
    Allow,
    Prefer,
    Require,
    VerifyCa,
    VerifyFull,
}

/// The parameters of a Postgres connection, as plain values. Callers that
/// open a real connection translate this into their driver's option type.
#[derive(Clone)]
pub struct PgConnectParams {
    pub host: String,
    pub username: String,
    pub password: SecretString,
    pub port: u16,
    pub ssl_mode: PgSslMode,
    pub database: Option<String>,
}

impl PostgresSettings {
    /// The connection parameters without the logical database name: used for
    /// connecting to the Postgres instance itself, as integration tests do
    /// when they create a fresh logical database per test.
    pub fn without_db(&self) -> (r: PgConnectParams)
        ensures
            r.host@ == self.host@,
            r.username@ == self.username@,
            r.password@ == self.password@,
            r.port == self.port,
            r.ssl_mode == PgSslMode::Prefer,
            r.database is None,
    {
        PgConnectParams {
            host: self.host.clone(),
            username: self.username.clone(),
            password: self.password.clone(),
            port: self.port,
            ssl_mode: PgSslMode::Prefer,
            database: None,
        }
    }

    /// The connection parameters of the configured logical database.
    pub fn with_db(&self) -> (r: PgConnectParams)
        ensures
            r.host@ == self.host@,
            r.username@ == self.username@,
            r.password@ == self.password@,
            r.port == self.port,
            r.ssl_mode == PgSslMode::Prefer,
            r.database matches Some(d) && d@ == self.database_name@,
    {
        let mut r = self.without_db();
        r.database = Some(self.database_name.clone());
        r
    }
}

/// The complete configuration of the consuming backend, loaded once from
/// the two layered sources.
#[derive(Clone)]
pub struct Settings {
    pub server: ServerSettings,
    pub worker: WorkerSettings,
    pub aws: AwsSettings,
    pub google: GoogleSettings,
    pub tiktok: TikTokSettings,
    pub linkedin: LinkedinSettings,
    pub pinterest: PinterestSettings,
    pub postgres: PostgresSettings,
    pub sentry: SentrySettings,
}

/// One layer's view of `Settings`: every leaf of every group may be absent.
#[derive(Debug, Clone)]
pub struct PartialSettings {
    pub server: PartialServerSettings,
    pub worker: PartialWorkerSettings,
    pub aws: PartialAwsSettings,
    pub google: PartialGoogleSettings,
    pub tiktok: PartialTikTokSettings,
    pub linkedin: PartialLinkedinSettings,
    pub pinterest: PartialPinterestSettings,
    pub postgres: PartialPostgresSettings,
    pub sentry: PartialSentrySettings,
}

/// The leaf-wise merge of two configuration layers.
pub open spec fn merged_settings(base: PartialSettings, overlay: PartialSettings) -> PartialSettings {
    PartialSettings {
        server: merged_server(base.server, overlay.server),
        worker: merged_worker(base.worker, overlay.worker),
        aws: merged_aws(base.aws, overlay.aws),
        google: merged_google(base.google, overlay.google),
        tiktok: merged_tiktok(base.tiktok, overlay.tiktok),
        linkedin: merged_linkedin(base.linkedin, overlay.linkedin),
        pinterest: merged_pinterest(base.pinterest, overlay.pinterest),
        postgres: merged_postgres(base.postgres, overlay.postgres),
        sentry: merged_sentry(base.sentry, overlay.sentry),
    }
}

/// Whether the finalized configuration `s` holds exactly the leaves of the
/// layer `p`.
pub open spec fn agrees_settings(s: Settings, p: PartialSettings) -> bool {
    &&& agrees_server(s.server, p.server)
    &&& agrees_worker(s.worker, p.worker)
    &&& agrees_aws(s.aws, p.aws)
    &&& agrees_google(s.google, p.google)
    &&& agrees_tiktok(s.tiktok, p.tiktok)
    &&& agrees_linkedin(s.linkedin, p.linkedin)
    &&& agrees_pinterest(s.pinterest, p.pinterest)
    &&& agrees_postgres(s.postgres, p.postgres)
    &&& agrees_sentry(s.sentry, p.sentry)
}

impl PartialSettings {
    /// Whether every required leaf of every group is present.
    pub open spec fn complete(self) -> bool {
        &&& self.server.complete()
        &&& self.worker.complete()
        &&& self.aws.complete()
        &&& self.google.complete()
        &&& self.tiktok.complete()
        &&& self.linkedin.complete()
        &&& self.pinterest.complete()
        &&& self.postgres.complete()
        &&& self.sentry.complete()
    }

    /// The name of the first absent required leaf, in group order.
    pub open spec fn first_missing(self) -> Seq<char> {
        if !self.server.complete() {
            self.server.first_missing()
        } else if !self.worker.complete() {
            self.worker.first_missing()
        } else if !self.aws.complete() {
            self.aws.first_missing()
        } else if !self.google.complete() {
            self.google.first_missing()
        } else if !self.tiktok.complete() {
            self.tiktok.first_missing()
        } else if !self.linkedin.complete() {
            self.linkedin.first_missing()
        } else if !self.pinterest.complete() {
            self.pinterest.first_missing()
        } else if !self.postgres.complete() {
            self.postgres.first_missing()
        } else {
            self.sentry.first_missing()
        }
    }

    /// Merges two configuration layers leaf by leaf, the overlay taking
    /// precedence.
    pub fn merge(self, overlay: Self) -> (r: Self)
        ensures
            r == merged_settings(self, overlay),
    {
        PartialSettings {
            server: self.server.merge(overlay.server),
            worker: self.worker.merge(overlay.worker),
            aws: self.aws.merge(overlay.aws),
            google: self.google.merge(overlay.google),
            tiktok: self.tiktok.merge(overlay.tiktok),
            linkedin: self.linkedin.merge(overlay.linkedin),
            pinterest: self.pinterest.merge(overlay.pinterest),
            postgres: self.postgres.merge(overlay.postgres),
            sentry: self.sentry.merge(overlay.sentry),
        }
    }

    /// Finalizes a merged configuration; fails on the first absent required
    /// leaf, so no partial configuration is accepted.
    pub fn finalize(self) -> (r: Result<Settings, ConfigError>)
        ensures
            match r {
                Ok(s) => self.complete() && agrees_settings(s, self),
                Err(e) => !self.complete() && (e matches ConfigError::MissingField(m) && m@
                    == self.first_missing()),
            },
    {
        let server = match self.server.finalize() {
            Ok(v) => v,
            Err(e) => return Err(e),
        };
        let worker = match self.worker.finalize() {
            Ok(v) => v,
            Err(e) => return Err(e),
        };
        let aws = match self.aws.finalize() {
            Ok(v) => v,
            Err(e) => return Err(e),
        };
        let google = match self.google.finalize() {
            Ok(v) => v,
            Err(e) => return Err(e),
        };
        let tiktok = match self.tiktok.finalize() {
            Ok(v) => v,
            Err(e) => return Err(e),
        };
        let linkedin = match self.linkedin.finalize() {
            Ok(v) => v,
            Err(e) => return Err(e),
        };
        let pinterest = match self.pinterest.finalize() {
            Ok(v) => v,
            Err(e) => return Err(e),
        };
        let postgres = match self.postgres.finalize() {
            Ok(v) => v,
            Err(e) => return Err(e),
        };
        let sentry = match self.sentry.finalize() {
            Ok(v) => v,
            Err(e) => return Err(e),
        };
        Ok(Settings { server, worker, aws, google, tiktok, linkedin, pinterest, postgres, sentry })
    }
}

impl Settings {
    /// Builds the configuration from the two layered sources: the overlay's
    /// leaves take precedence over the base's, and the load fails exactly
    /// when a required leaf is absent from both layers.
    pub fn from_layers(base: PartialSettings, overlay: PartialSettings) -> (r: Result<Settings, ConfigError>)
        ensures
            r is Ok ==> merged_settings(base, overlay).complete(),
            r matches Ok(s) ==> agrees_settings(s, merged_settings(base, overlay)),
            r is Err ==> !merged_settings(base, overlay).complete(),
            r matches Err(e) ==> (e matches ConfigError::MissingField(m) && m@ == merged_settings(
                base,
                overlay,
            ).first_missing()),
    {
        base.merge(overlay).finalize()
    }
}


} // verus!
