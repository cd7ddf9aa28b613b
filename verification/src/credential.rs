//! Credentials and configuration.
//!
//! Exactly one credential exists per process. It is created at startup
//! from a bootstrap refresh token, and from then on only the refresh step
//! replaces its access token; the refresh token itself is kept for the
//! life of the process. Configuration is an explicit struct validated at
//! startup: a missing required field fails fast, before any task starts.

use vstd::prelude::*;

verus! {

/// Seconds between two credential refreshes (58 minutes).
pub const REFRESH_INTERVAL_SECS: u64 = 60 * 58;

/// The shortest poll interval the service accepts, in seconds.
pub const MIN_POLL_INTERVAL_SECS: u64 = 5;

/// The longest poll interval the service accepts, in seconds.
pub const MAX_POLL_INTERVAL_SECS: u64 = 10;

/// The access/refresh token pair for the tracked account.
pub struct Credential {
    /// The short-lived access token, absent until the first refresh.
    pub access_token: Option<String>,
    /// The long-lived refresh token, set at startup and never replaced.
    pub refresh_token: String,
    /// When the access token expires (seconds since the epoch), if known.
    pub expiry_epoch_secs: Option<u64>,
}

impl Credential {
    /// A usable credential always carries a nonempty refresh token.
    pub open spec fn wf(self) -> bool {
        self.refresh_token@.len() > 0
    }

    /// The credential installed at startup: the bootstrap refresh token,
    /// no access token yet, no expiry yet.
    pub fn from_bootstrap(refresh_token: String) -> (cred: Credential)
        ensures
            cred.refresh_token@ == refresh_token@,
            cred.access_token is None,
            cred.expiry_epoch_secs is None,
            refresh_token@.len() > 0 ==> cred.wf(),
    {
        Credential { access_token: None, refresh_token, expiry_epoch_secs: None }
    }
}

/// What one run of the external refresh operation produced.
pub enum RefreshOutcome {
    /// The refresh succeeded and minted this access token.
    Renewed { access_token: String, expiry_epoch_secs: Option<u64> },
    /// The refresh failed; the message describes how.
    Failed { message: String },
}

/// What the refresher is to do after applying one refresh outcome.
pub enum RefreshAction {
    /// Keep running: the credential was renewed.
    Continue,
    /// Stop the process: a refresh failure is fatal, and is reported
    /// distinctly so the operator sees which failure mode it was.
    Fatal { message: String },
}

/// Applies one refresh outcome to the credential.
///
/// On success the access token and expiry are replaced and the refresh
/// token is kept; on failure the credential is left untouched and the
/// failure escalates as a fatal action. A caller holding exclusive access
/// while it calls this gets the atomic replacement the readers rely on.
pub fn apply_refresh(cred: &mut Credential, outcome: RefreshOutcome) -> (action: RefreshAction)
    ensures
        (match outcome {
            RefreshOutcome::Renewed { access_token, expiry_epoch_secs } => final(
                cred
            ).access_token == Some(access_token) && final(cred).expiry_epoch_secs
                == expiry_epoch_secs && final(cred).refresh_token == old(cred).refresh_token
                && action is Continue,
            RefreshOutcome::Failed { message } => *final(cred) == *old(cred) && action == (
            RefreshAction::Fatal { message }),
        }),
        old(cred).wf() ==> final(cred).wf(),
{
    match outcome {
        RefreshOutcome::Renewed { access_token, expiry_epoch_secs } => {
            cred.access_token = Some(access_token);
            cred.expiry_epoch_secs = expiry_epoch_secs;
            RefreshAction::Continue
        },
        RefreshOutcome::Failed { message } => RefreshAction::Fatal { message },
    }
}

/// Why startup configuration was rejected.
#[derive(Debug)]
pub enum ConfigError {
    /// The client identifier is absent or empty.
    MissingClientId,
    /// The client secret is absent or empty.
    MissingClientSecret,
    /// The bootstrap refresh token is absent or empty.
    MissingRefreshToken,
    /// The poll interval is outside the accepted range of seconds.
    PollIntervalOutOfRange,
}

/// The startup configuration, validated before any task starts.
pub struct Config {
    /// The client identifier for the external source.
    pub client_id: String,
    /// The client secret for the external source.
    pub client_secret: String,
    /// The bootstrap refresh token, nonempty.
    pub refresh_token: String,
    /// Seconds between two polls.
    pub poll_interval_secs: u64,
    /// Whether responses carry the permissive cross-origin header.
    pub cors_enabled: bool,
}

impl Config {
    /// Every field a validated configuration guarantees.
    pub open spec fn wf(self) -> bool {
        self.client_id@.len() > 0 && self.client_secret@.len() > 0 && self.refresh_token@.len() > 0
            && MIN_POLL_INTERVAL_SECS <= self.poll_interval_secs <= MAX_POLL_INTERVAL_SECS
    }

    /// Validates the raw configuration values, failing fast on the first
    /// absent or out-of-range field, in the order the errors are declared.
    pub fn validate(
        client_id: String,
        client_secret: String,
        refresh_token: String,
        poll_interval_secs: u64,
        cors_enabled: bool,
    ) -> (result: Result<Config, ConfigError>)
        ensures
            (match result {
                Ok(config) => config.wf() && config.client_id@ == client_id@
                    && config.client_secret@ == client_secret@ && config.refresh_token@
                    == refresh_token@ && config.poll_interval_secs == poll_interval_secs
                    && config.cors_enabled == cors_enabled,
                Err(e) => match e {
                    ConfigError::MissingClientId => client_id@.len() == 0,
                    ConfigError::MissingClientSecret => client_id@.len() > 0 && client_secret@.len()
                        == 0,
                    ConfigError::MissingRefreshToken => client_id@.len() > 0
                        && client_secret@.len() > 0 && refresh_token@.len() == 0,
                    ConfigError::PollIntervalOutOfRange => client_id@.len() > 0
                        && client_secret@.len() > 0 && refresh_token@.len() > 0 && !(
                    MIN_POLL_INTERVAL_SECS <= poll_interval_secs <= MAX_POLL_INTERVAL_SECS),
                },
            }),
            result is Ok <==> client_id@.len() > 0 && client_secret@.len() > 0
                && refresh_token@.len() > 0 && MIN_POLL_INTERVAL_SECS <= poll_interval_secs
                <= MAX_POLL_INTERVAL_SECS,
    {
        if client_id.as_str().is_empty() {
            Err(ConfigError::MissingClientId)
        } else if client_secret.as_str().is_empty() {
            Err(ConfigError::MissingClientSecret)
        } else if refresh_token.as_str().is_empty() {
            Err(ConfigError::MissingRefreshToken)
        } else if poll_interval_secs < MIN_POLL_INTERVAL_SECS || poll_interval_secs
            > MAX_POLL_INTERVAL_SECS {
            Err(ConfigError::PollIntervalOutOfRange)
        } else {
            Ok(
                Config {
                    client_id,
                    client_secret,
                    refresh_token,
                    poll_interval_secs,
                    cors_enabled,
                },
            )
        }
    }
}

} // verus!
