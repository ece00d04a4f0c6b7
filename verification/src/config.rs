//! Startup configuration and the error taxonomy of the engine.

use vstd::prelude::*;

verus! {

/// Why an operation of the engine failed.
#[derive(Clone, Copy, Debug, PartialEq, Eq, Structural)]
pub enum SyncError {
    /// A required startup setting is absent; the process must not start.
    ConfigurationMissing,
    /// A background refresh attempt failed; the previous credential stays in
    /// effect and the attempt is retried next cycle.
    CredentialRefreshFailed,
    /// A page request failed mid-fetch; lookup runs against the partial
    /// snapshot accumulated so far.
    PlaylistFetchFailed,
    /// The reorder or insert call was rejected; no reply is sent for the
    /// message.
    MutationFailed,
}

/// The settings the engine needs, all fixed at startup: the chat bot
/// authorization token, the target playlist's owner and identifier, the
/// music-service application credentials, and the long-lived refresh token.
#[derive(Debug)]
pub struct Config {
    pub chat_token: String,
    pub playlist_owner: String,
    pub playlist_id: String,
    pub client_id: String,
    pub client_secret: String,
    pub refresh_token: String,
}

/// Checks the environment-provided settings: every one is required, and a
/// missing one is a startup-fatal configuration error.
pub fn validate_config(
    chat_token: Option<String>,
    playlist_owner: Option<String>,
    playlist_id: Option<String>,
    client_id: Option<String>,
    client_secret: Option<String>,
    refresh_token: Option<String>,
) -> (r: Result<Config, SyncError>)
    ensures
        (r is Ok) <==> (chat_token is Some && playlist_owner is Some && playlist_id is Some
            && client_id is Some && client_secret is Some && refresh_token is Some),
        r matches Ok(c) ==> {
            &&& chat_token == Some(c.chat_token)
            &&& playlist_owner == Some(c.playlist_owner)
            &&& playlist_id == Some(c.playlist_id)
            &&& client_id == Some(c.client_id)
            &&& client_secret == Some(c.client_secret)
            &&& refresh_token == Some(c.refresh_token)
        },
        r matches Err(e) ==> e == SyncError::ConfigurationMissing,
{
    match (chat_token, playlist_owner, playlist_id, client_id, client_secret, refresh_token) {
        (Some(a), Some(b), Some(c), Some(d), Some(e), Some(f)) => Ok(
            Config {
                chat_token: a,
                playlist_owner: b,
                playlist_id: c,
                client_id: d,
                client_secret: e,
                refresh_token: f,
            },
        ),
        _ => Err(SyncError::ConfigurationMissing),
    }
}

} // verus!
