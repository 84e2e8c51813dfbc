use processing_svc::commands::Command;
use processing_svc::config::{AppConfig, ConfigError};
use processing_svc::http_retry::RetryConfig;

fn valid_env() -> Vec<(String, String)> {
    vec![
        (
            "DATABASE_URL".to_owned(),
            "postgres://localhost/lumenhorizon".to_owned(),
        ),
        (
            "AZURE_STORAGE_ACCOUNT".to_owned(),
            "devstoreaccount1".to_owned(),
        ),
        (
            "AZURE_STORAGE_ACCESS_KEY".to_owned(),
            "dGVzdC1zdG9yYWdlLWFjY291bnQta2V5".to_owned(),
        ),
    ]
}

fn insert(env: &mut Vec<(String, String)>, name: &str, value: &str) {
    env.retain(|(key, _)| key != name);
    env.push((name.to_owned(), value.to_owned()));
}

/// Loads the configuration; the floating-point settings stay at their
/// valid defaults in these tests.
fn load_from(env: Vec<(String, String)>) -> Result<AppConfig, ConfigError> {
    AppConfig::from_lookup_for(&Command::Worker, &env, Ok(()), Ok(()))
}

#[test]
fn loads_http_retry_defaults() {
    let config = load_from(valid_env()).unwrap();

    assert_eq!(config.http_request_timeout_seconds, 30);
    assert_eq!(config.http_retry.max_attempts, 3);
    assert_eq!(config.http_retry.base_delay_ms, 250);
    assert_eq!(config.http_retry.max_delay_ms, 5_000);
}

#[test]
fn loads_retention_defaults() {
    let config = load_from(valid_env()).unwrap();

    assert_eq!(config.raw_granule_retention_days, 90);
    assert_eq!(config.processed_tile_set_retention_days, 180);
    assert_eq!(config.retention_protected_prior_tile_sets, 2);
    assert_eq!(config.retention_batch_limit, 500);
    assert_eq!(config.retention_tile_blob_limit, 5_000);
}

#[test]
fn defaults_tile_cdn_base_url_to_production_cdn_when_unset() {
    let config = load_from(valid_env()).unwrap();

    assert_eq!(config.tile_cdn_base_url, "https://tiles.lumenhorizon.com");
}

#[test]
fn loads_tile_cdn_base_url_override_and_trims_trailing_slash() {
    let mut env = valid_env();
    insert(
        &mut env,
        "TILE_CDN_BASE_URL",
        "http://127.0.0.1:10000/devstoreaccount1/processed-tiles/",
    );

    let config = load_from(env).unwrap();

    assert_eq!(
        config.tile_cdn_base_url,
        "http://127.0.0.1:10000/devstoreaccount1/processed-tiles"
    );
}

#[test]
fn loads_retention_overrides() {
    let mut env = valid_env();
    insert(&mut env, "RAW_GRANULE_RETENTION_DAYS", "120");
    insert(&mut env, "PROCESSED_TILE_SET_RETENTION_DAYS", "365");
    insert(&mut env, "RETENTION_PROTECTED_PRIOR_TILE_SETS", "0");
    insert(&mut env, "RETENTION_BATCH_LIMIT", "25");
    insert(&mut env, "RETENTION_TILE_BLOB_LIMIT", "2500");

    let config = load_from(env).unwrap();

    assert_eq!(config.raw_granule_retention_days, 120);
    assert_eq!(config.processed_tile_set_retention_days, 365);
    assert_eq!(config.retention_protected_prior_tile_sets, 0);
    assert_eq!(config.retention_batch_limit, 25);
    assert_eq!(config.retention_tile_blob_limit, 2500);
}

#[test]
fn loads_http_retry_overrides() {
    let mut env = valid_env();
    insert(&mut env, "HTTP_REQUEST_TIMEOUT_SECONDS", "45");
    insert(&mut env, "HTTP_RETRY_MAX_ATTEMPTS", "5");
    insert(&mut env, "HTTP_RETRY_BASE_DELAY_MS", "100");
    insert(&mut env, "HTTP_RETRY_MAX_DELAY_MS", "1000");

    let config = load_from(env).unwrap();

    assert_eq!(config.http_request_timeout_seconds, 45);
    assert_eq!(config.http_retry.max_attempts, 5);
    assert_eq!(config.http_retry.base_delay_ms, 100);
    assert_eq!(config.http_retry.max_delay_ms, 1000);
    assert_eq!(config.http_retry.delay_for_attempt(4), 800);
}

#[test]
fn rejects_zero_http_retry_attempts() {
    let mut env = valid_env();
    insert(&mut env, "HTTP_RETRY_MAX_ATTEMPTS", "0");

    let error = load_from(env).unwrap_err().message();

    assert!(error.contains("invalid HTTP_RETRY_MAX_ATTEMPTS"));
}

#[test]
fn rejects_retry_base_delay_above_max_delay() {
    let mut env = valid_env();
    insert(&mut env, "HTTP_RETRY_BASE_DELAY_MS", "2000");
    insert(&mut env, "HTTP_RETRY_MAX_DELAY_MS", "1000");

    let error = load_from(env).unwrap_err().message();

    assert!(error.contains("invalid HTTP_RETRY_BASE_DELAY_MS"));
}

#[test]
fn rejects_zero_retention_windows_and_batch_limits() {
    for variable in [
        "RAW_GRANULE_RETENTION_DAYS",
        "PROCESSED_TILE_SET_RETENTION_DAYS",
        "RETENTION_BATCH_LIMIT",
        "RETENTION_TILE_BLOB_LIMIT",
    ] {
        let mut env = valid_env();
        insert(&mut env, variable, "0");

        let error = load_from(env).unwrap_err().message();

        assert!(error.contains(&format!("invalid {variable}")));
    }
}

#[test]
fn rejects_retention_tile_blob_limit_above_azure_page_limit() {
    let mut env = valid_env();
    insert(&mut env, "RETENTION_TILE_BLOB_LIMIT", "5001");

    let error = load_from(env).unwrap_err().message();

    assert!(error.contains("invalid RETENTION_TILE_BLOB_LIMIT"));
    assert!(error.contains("must be within the allowed range"));
}

#[test]
fn reports_every_missing_required_variable() {
    let error = load_from(Vec::new()).unwrap_err();

    match &error {
        ConfigError::MissingRequired { variables } => {
            let names: Vec<&str> = variables.iter().map(|variable| variable.name).collect();
            assert_eq!(
                names,
                vec![
                    "DATABASE_URL",
                    "AZURE_STORAGE_ACCOUNT",
                    "AZURE_STORAGE_ACCESS_KEY"
                ]
            );
        }
        other => panic!("unexpected error {other:?}"),
    }
    assert!(error
        .message()
        .starts_with("configuration error: missing required environment variables:\n- DATABASE_URL: "));
}

#[test]
fn blank_values_count_as_unset() {
    let mut env = valid_env();
    insert(&mut env, "TILE_MIN_ZOOM", "   ");

    let config = load_from(env).unwrap();

    assert_eq!(config.tile_min_zoom, 3);
}

#[test]
fn normalizes_tile_format() {
    let mut env = valid_env();
    insert(&mut env, "TILE_FORMAT", " PNG ");
    assert_eq!(load_from(env).unwrap().tile_format, "png");

    let mut env = valid_env();
    insert(&mut env, "TILE_FORMAT", "jpeg");
    assert!(load_from(env)
        .unwrap_err()
        .message()
        .contains("invalid TILE_FORMAT value 'jpeg': must be 'png'"));
}

#[test]
fn retry_delay_doubles_until_capped() {
    let policy = RetryConfig {
        max_attempts: 3,
        base_delay_ms: 250,
        max_delay_ms: 5_000,
    };

    assert_eq!(policy.delay_for_attempt(0), 250);
    assert_eq!(policy.delay_for_attempt(5), 4_000);
    assert_eq!(policy.delay_for_attempt(6), 5_000);
    assert_eq!(policy.delay_for_attempt(200), 5_000);
}
