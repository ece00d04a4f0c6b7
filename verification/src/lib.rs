//! A verified playlist synchronization engine.
//!
//! The library watches free-form chat text for references to tracks of a
//! music-streaming service and keeps a designated playlist ordered by most
//! recent mention: a mentioned track is inserted at the top, or moved there
//! if it is already present, with at most one copy per track.
//!
//! The modules hold, leaf first:
//! - [`credential`]: the shared, background-refreshed access credential;
//! - [`extract`]: pulling a track identifier out of arbitrary text;
//! - [`playlist`]: the playlist snapshot, lookup, and the paginated fetch
//!   accumulator;
//! - [`sync`]: the deduplicate-or-insert policy and the reply texts;
//! - [`scheduler`]: the background refresh state machine;
//! - [`config`]: startup configuration validation and the error taxonomy.
//!
//! All network and chat transport work lives outside this crate; the library
//! is handed plain values (message text, page contents, refresh results) and
//! returns plain values (mutations to perform, replies to send).

pub mod config;
pub mod credential;
pub mod extract;
pub mod playlist;
pub mod scheduler;
pub mod sync;

pub use config::Config;
pub use config::SyncError;
pub use config::validate_config;
pub use credential::Credential;
pub use credential::CredentialCache;
pub use extract::TrackReference;
pub use extract::extract;
pub use playlist::FetchAccumulator;
pub use playlist::PlaylistEntry;
pub use playlist::find;
pub use scheduler::RefreshEvent;
pub use scheduler::SchedulerPhase;
pub use scheduler::scheduler_step;
pub use sync::Mutation;
pub use sync::SyncOutcome;
pub use sync::SyncPlan;
pub use sync::apply;
pub use sync::handle_message;
pub use sync::reply_for;
