use nowplaying::CORS;
use nowplaying::Config;
use nowplaying::ConfigError;
use nowplaying::Credential;
use nowplaying::PlaybackQueryResult;
use nowplaying::RefreshAction;
use nowplaying::RefreshOutcome;
use nowplaying::StatusCache;
use nowplaying::apply_refresh;
use nowplaying::format_status;
use nowplaying::handle_query;
use nowplaying::poll_step;
use nowplaying::render_json_string;

fn track(artists: &[&str], title: &str) -> PlaybackQueryResult {
    PlaybackQueryResult::Track {
        artist_names: artists.iter().map(|a| a.to_string()).collect(),
        title: title.to_string(),
    }
}

#[test]
fn formats_track_with_two_artists() {
    let s = format_status(&track(&["A", "B"], "T"));
    assert_eq!(s, "A, B - T");
}

#[test]
fn formats_track_with_one_artist() {
    let s = format_status(&track(&["Alice"], "Song"));
    assert_eq!(s, "Alice - Song");
}

#[test]
fn formats_track_with_empty_artist_list() {
    let s = format_status(&track(&[], "Song"));
    assert_eq!(s, " - Song");
}

#[test]
fn formats_nothing_playing() {
    let s = format_status(&PlaybackQueryResult::NothingPlaying);
    assert_eq!(s, "No song playing");
}

#[test]
fn formats_other_playable() {
    let s = format_status(&PlaybackQueryResult::OtherPlayable);
    assert_eq!(s, "Unknown");
}

#[test]
fn formats_failed_query() {
    let s = format_status(&PlaybackQueryResult::QueryFailed { message: "x".to_string() });
    assert_eq!(s, "Error! x");
}

#[test]
fn cache_starts_with_sentinel() {
    let cache = StatusCache::new();
    assert_eq!(cache.current_value(), "init");
    assert!(!cache.current_value().is_empty());
}

#[test]
fn cache_returns_published_value_to_every_reader() {
    let mut cache = StatusCache::new();
    cache.publish("hello".to_string());
    assert_eq!(cache.current_value(), "hello");
    assert_eq!(cache.current_value(), "hello");
    assert_eq!(cache.current_value(), "hello");
}

#[test]
fn cache_never_shows_an_older_value_after_a_newer_one() {
    let mut cache = StatusCache::new();
    cache.publish("v1".to_string());
    cache.publish("v2".to_string());
    assert_eq!(cache.current_value(), "v2");
    assert_eq!(cache.current_value(), "v2");
}

#[test]
fn poll_step_publishes_formatted_status() {
    let mut cache = StatusCache::new();
    poll_step(&mut cache, track(&["Alice"], "Song"));
    assert_eq!(cache.current_value(), "Alice - Song");
}

#[test]
fn poll_step_publishes_failures_too() {
    let mut cache = StatusCache::new();
    poll_step(&mut cache, track(&["Alice"], "Song"));
    poll_step(
        &mut cache,
        PlaybackQueryResult::QueryFailed { message: "timeout".to_string() },
    );
    assert_eq!(cache.current_value(), "Error! timeout");
}

#[test]
fn query_returns_quoted_current_status() {
    let mut cache = StatusCache::new();
    poll_step(&mut cache, track(&["Alice"], "Song"));
    assert_eq!(handle_query(&cache), "\"Alice - Song\"");
}

#[test]
fn query_returns_quoted_sentinel_before_first_poll() {
    let cache = StatusCache::new();
    assert_eq!(handle_query(&cache), "\"init\"");
}

#[test]
fn renders_json_string() {
    assert_eq!(render_json_string(&"abc".to_string()), "\"abc\"");
}

#[test]
fn bootstrap_credential_has_token_and_nothing_else() {
    let cred = Credential::from_bootstrap("refresh".to_string());
    assert_eq!(cred.refresh_token, "refresh");
    assert!(cred.access_token.is_none());
    assert!(cred.expiry_epoch_secs.is_none());
}

#[test]
fn successful_refresh_installs_access_token_and_keeps_refresh_token() {
    let mut cred = Credential::from_bootstrap("refresh".to_string());
    let action = apply_refresh(
        &mut cred,
        RefreshOutcome::Renewed {
            access_token: "access".to_string(),
            expiry_epoch_secs: Some(1000),
        },
    );
    assert!(matches!(action, RefreshAction::Continue));
    assert_eq!(cred.access_token.as_deref(), Some("access"));
    assert_eq!(cred.expiry_epoch_secs, Some(1000));
    assert_eq!(cred.refresh_token, "refresh");
}

#[test]
fn failed_refresh_is_fatal_and_leaves_credential_untouched() {
    let mut cred = Credential::from_bootstrap("refresh".to_string());
    let action = apply_refresh(
        &mut cred,
        RefreshOutcome::Failed { message: "boom".to_string() },
    );
    assert!(matches!(action, RefreshAction::Fatal { message } if message == "boom"));
    assert!(cred.access_token.is_none());
    assert_eq!(cred.refresh_token, "refresh");
}

#[test]
fn valid_config_is_accepted_with_its_fields() {
    let config = Config::validate(
        "id".to_string(),
        "secret".to_string(),
        "refresh".to_string(),
        10,
        true,
    )
    .unwrap();
    assert_eq!(config.client_id, "id");
    assert_eq!(config.client_secret, "secret");
    assert_eq!(config.refresh_token, "refresh");
    assert_eq!(config.poll_interval_secs, 10);
    assert!(config.cors_enabled);
}

#[test]
fn config_rejects_missing_client_id() {
    let result = Config::validate(
        String::new(),
        "secret".to_string(),
        "refresh".to_string(),
        5,
        false,
    );
    assert!(matches!(result, Err(ConfigError::MissingClientId)));
}

#[test]
fn config_rejects_missing_client_secret() {
    let result = Config::validate(
        "id".to_string(),
        String::new(),
        "refresh".to_string(),
        5,
        false,
    );
    assert!(matches!(result, Err(ConfigError::MissingClientSecret)));
}

#[test]
fn config_rejects_missing_refresh_token() {
    let result = Config::validate("id".to_string(), "secret".to_string(), String::new(), 5, false);
    assert!(matches!(result, Err(ConfigError::MissingRefreshToken)));
}

#[test]
fn config_rejects_poll_interval_outside_range() {
    let too_short = Config::validate(
        "id".to_string(),
        "secret".to_string(),
        "refresh".to_string(),
        4,
        false,
    );
    assert!(matches!(too_short, Err(ConfigError::PollIntervalOutOfRange)));
    let too_long = Config::validate(
        "id".to_string(),
        "secret".to_string(),
        "refresh".to_string(),
        11,
        false,
    );
    assert!(matches!(too_long, Err(ConfigError::PollIntervalOutOfRange)));
}

#[test]
fn refresh_interval_is_58_minutes() {
    assert_eq!(nowplaying::REFRESH_INTERVAL_SECS, 58 * 60);
    assert_eq!(nowplaying::MIN_POLL_INTERVAL_SECS, 5);
    assert_eq!(nowplaying::MAX_POLL_INTERVAL_SECS, 10);
}

#[test]
fn cors_header_is_allow_any_origin() {
    let (name, value) = CORS.header();
    assert_eq!(name, "Access-Control-Allow-Origin");
    assert_eq!(value, "*");
}
