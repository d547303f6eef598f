//! Data model: playback events, tracks, settings and session state.

use vstd::prelude::*;

verus! {

/// A playback lifecycle event. `Playing` and `Paused` carry the elapsed
/// play time of the current item, in whole seconds.
#[derive(Clone, Copy, Debug)]
pub enum PlayerEvent {
    Playing(u64),
    Paused(u64),
    Stopped,
    FinishedTrack,
}

/// Track metadata, as far as reporting needs it.
#[derive(Clone, Debug)]
pub struct Track {
    pub title: String,
    pub album: Option<String>,
    pub artists: Vec<String>,
    pub cover_url: Option<String>,
}

/// The kinds of item the player can currently hold. Only `Track` takes part
/// in reporting; every other kind is ignored uniformly.
#[derive(Clone, Debug)]
pub enum Playable {
    Track(Track),
    Other,
}

/// A settings snapshot, read fresh on every call. Every field is optional;
/// the `effective_*` spec functions below give the documented defaults.
#[derive(Clone, Debug)]
pub struct Settings {
    /// Master switch for both services; absent means off.
    pub enabled: Option<bool>,
    /// Switch for presence updates alone; absent means on.
    pub discord_enabled: Option<bool>,
    pub lastfm_api_key: Option<String>,
    pub lastfm_api_secret: Option<String>,
    pub lastfm_username: Option<String>,
    pub lastfm_password: Option<String>,
    /// Template for the presence "details" line.
    pub discord_format_details: Option<String>,
    /// Template for the presence "state" line.
    pub discord_format_state: Option<String>,
}

/// Persisted session state of the logging service: an opaque session key and
/// the username it was issued for.
#[derive(Clone, Debug)]
pub struct SessionState {
    pub lastfm_session_key: Option<String>,
    pub lastfm_session_user: Option<String>,
}

/// The errors this library reports. Each is terminal for the one event or
/// handshake it came from; none stops the caller.
#[derive(Clone, Copy, Debug, PartialEq, Eq, Structural)]
pub enum ReportError {
    /// The logging service rejected the credential exchange.
    Authentication,
    /// The presence connector failed to apply an update.
    PresenceUpdate,
    /// The logging service rejected a play record.
    ScrobbleSubmission,
}

/// The master enablement flag, with its default of `false`.
pub open spec fn effective_enabled(s: Settings) -> bool {
    match s.enabled {
        Some(b) => b,
        None => false,
    }
}

/// The presence enablement flag, with its default of `true`.
pub open spec fn effective_presence_enabled(s: Settings) -> bool {
    match s.discord_enabled {
        Some(b) => b,
        None => true,
    }
}

/// Whether the playable at hand is a track.
pub open spec fn is_track(p: Option<Playable>) -> bool {
    match p {
        Some(Playable::Track(_)) => true,
        _ => false,
    }
}

/// The track inside the playable, where there is one.
pub open spec fn track_of(p: Option<Playable>) -> Track
    recommends
        is_track(p),
{
    match p {
        Some(Playable::Track(t)) => t,
        _ => arbitrary(),
    }
}

/// The track inside the playable, or nothing for every other kind of item.
pub fn playable_to_track(playable: Option<Playable>) -> (r: Option<Track>)
    ensures
        r is Some <==> is_track(playable),
        r matches Some(t) ==> t == track_of(playable),
{
    if let Some(playable) = playable {
        match playable {
            Playable::Track(track) => Some(track),
            _ => None,
        }
    } else {
        None
    }
}

impl Settings {
    /// A snapshot with every field absent: reporting defaults to off.
    pub fn all_absent() -> (s: Settings)
        ensures
            s.enabled is None,
            s.discord_enabled is None,
            s.lastfm_api_key is None,
            s.lastfm_api_secret is None,
            s.lastfm_username is None,
            s.lastfm_password is None,
            s.discord_format_details is None,
            s.discord_format_state is None,
            !effective_enabled(s),
            effective_presence_enabled(s),
    {
        Settings {
            enabled: None,
            discord_enabled: None,
            lastfm_api_key: None,
            lastfm_api_secret: None,
            lastfm_username: None,
            lastfm_password: None,
            discord_format_details: None,
            discord_format_state: None,
        }
    }

    /// The master flag as executable code, equal to its spec.
    pub fn is_enabled(&self) -> (b: bool)
        ensures
            b == effective_enabled(*self),
    {
        match self.enabled {
            Some(b) => b,
            None => false,
        }
    }

    /// The presence flag as executable code, equal to its spec.
    pub fn is_presence_enabled(&self) -> (b: bool)
        ensures
            b == effective_presence_enabled(*self),
    {
        match self.discord_enabled {
            Some(b) => b,
            None => true,
        }
    }
}

} // verus!
