//! Event dispatch: from a playback event, a settings snapshot and the
//! current item, decide which connector call to make and with what payload.
//!
//! `decide` is the mathematical statement of the dispatcher; `plan_update`
//! is its executable counterpart and is proved equal to it. The caller
//! performs the decided action and nothing else.

use vstd::prelude::*;
use vstd::string::StringExecFns;

use crate::format::artists_joined;
use crate::format::details_template;
use crate::format::details_template_of;
use crate::format::join_artists;
use crate::format::render;
use crate::format::rendered;
use crate::format::state_template;
use crate::format::state_template_of;
use crate::model::PlayerEvent;
use crate::model::Playable;
use crate::model::Settings;
use crate::model::Track;
use crate::model::effective_enabled;
use crate::model::effective_presence_enabled;
use crate::model::is_track;
use crate::model::track_of;

verus! {

/// The application identifier the presence connector is started with.
pub const DISCORD_APP_ID: u64 = 1145519858298138635;

/// Caption of the play icon.
pub const DISCORD_PLAYING: &'static str = "Playing";

/// Caption of the pause icon.
pub const DISCORD_PAUSED: &'static str = "Paused";

/// Identifier of the play icon.
pub const DISCORD_IMAGE_PLAY: &'static str = "playing";

/// Identifier of the pause icon.
pub const DISCORD_IMAGE_PAUSE: &'static str = "pause";

/// Identifier of the placeholder cover image.
pub const DISCORD_IMAGE_LOGO: &'static str = "logo";

/// Caption of the large (cover) image.
pub const DISCORD_LARGE_TEXT: &'static str = "ncspot";

/// The mathematical value of a presence payload.
pub ghost struct PayloadSpec {
    pub details: Seq<char>,
    pub state: Seq<char>,
    pub large_image: Seq<char>,
    pub large_text: Seq<char>,
    pub small_image: Seq<char>,
    pub small_text: Seq<char>,
    pub start_timestamp: Option<u64>,
}

/// The mathematical value of a play record.
pub ghost struct RecordSpec {
    pub artist: Seq<char>,
    pub title: Seq<char>,
    pub album: Seq<char>,
}

/// What the dispatcher decides to do for one event.
pub ghost enum ActionSpec {
    DoNothing,
    SetActivity(PayloadSpec),
    ClearActivity,
    Submit(RecordSpec),
}

/// A presence payload, passed whole to the presence connector.
#[derive(Clone, Debug)]
pub struct PresencePayload {
    pub details: String,
    pub state: String,
    pub large_image: String,
    pub large_text: String,
    pub small_image: String,
    pub small_text: String,
    pub start_timestamp: Option<u64>,
}

impl View for PresencePayload {
    type V = PayloadSpec;

    open spec fn view(&self) -> PayloadSpec {
        PayloadSpec {
            details: self.details@,
            state: self.state@,
            large_image: self.large_image@,
            large_text: self.large_text@,
            small_image: self.small_image@,
            small_text: self.small_text@,
            start_timestamp: self.start_timestamp,
        }
    }
}

/// A play record, submitted whole to the logging connector.
#[derive(Clone, Debug)]
pub struct LogRecord {
    pub artist: String,
    pub title: String,
    pub album: String,
}

impl View for LogRecord {
    type V = RecordSpec;

    open spec fn view(&self) -> RecordSpec {
        RecordSpec { artist: self.artist@, title: self.title@, album: self.album@ }
    }
}

/// The decided action, as executable data.
#[derive(Clone, Debug)]
pub enum Action {
    DoNothing,
    SetActivity(PresencePayload),
    ClearActivity,
    Submit(LogRecord),
}

impl View for Action {
    type V = ActionSpec;

    open spec fn view(&self) -> ActionSpec {
        match self {
            Action::DoNothing => ActionSpec::DoNothing,
            Action::SetActivity(p) => ActionSpec::SetActivity(p@),
            Action::ClearActivity => ActionSpec::ClearActivity,
            Action::Submit(r) => ActionSpec::Submit(r@),
        }
    }
}

/// The cover image reference, or the placeholder where the track has none.
pub open spec fn large_image_of(t: Track) -> Seq<char> {
    match t.cover_url {
        Some(u) => u@,
        None => "logo"@,
    }
}

/// The play record for a finished track: joined artists with the
/// "Unknown Artist" fallback for an empty list, the title, and the album
/// with the "Unknown Album" fallback where absent.
pub open spec fn record_of(t: Track) -> RecordSpec {
    RecordSpec {
        artist: if t.artists@.len() == 0 {
            "Unknown Artist"@
        } else {
            artists_joined(t.artists@)
        },
        title: t.title@,
        album: match t.album {
            Some(a) => a@,
            None => "Unknown Album"@,
        },
    }
}

/// The start timestamp of a playing track: the wall time less the elapsed
/// play time, clamped at zero so the subtraction cannot wrap.
pub open spec fn start_of(now: u64, elapsed: u64) -> u64 {
    if elapsed <= now {
        (now - elapsed) as u64
    } else {
        0
    }
}

/// The payload sent while a track plays.
pub open spec fn playing_payload(s: Settings, t: Track, now: u64, elapsed: u64) -> PayloadSpec {
    PayloadSpec {
        details: rendered(t, details_template(s)),
        state: rendered(t, state_template(s)),
        large_image: large_image_of(t),
        large_text: "ncspot"@,
        small_image: "playing"@,
        small_text: "Playing"@,
        start_timestamp: Some(start_of(now, elapsed)),
    }
}

/// The payload sent while a track is paused: no timestamp, pause iconography.
pub open spec fn paused_payload(s: Settings, t: Track) -> PayloadSpec {
    PayloadSpec {
        details: rendered(t, details_template(s)),
        state: rendered(t, state_template(s)),
        large_image: large_image_of(t),
        large_text: "ncspot"@,
        small_image: "pause"@,
        small_text: "Paused"@,
        start_timestamp: None,
    }
}

/// The dispatcher's decision. With the master flag off nothing happens;
/// `Stopped` always clears presence; `Playing`/`Paused` set a presence
/// payload only with presence enabled and a track at hand; `FinishedTrack`
/// submits a record only with a logging connector at hand and a track.
pub open spec fn decide(
    s: Settings,
    has_logger: bool,
    event: PlayerEvent,
    playable: Option<Playable>,
    now: u64,
) -> ActionSpec {
    if !effective_enabled(s) {
        ActionSpec::DoNothing
    } else {
        match event {
            PlayerEvent::Playing(elapsed) => {
                if effective_presence_enabled(s) && is_track(playable) {
                    ActionSpec::SetActivity(playing_payload(s, track_of(playable), now, elapsed))
                } else {
                    ActionSpec::DoNothing
                }
            },
            PlayerEvent::Paused(_) => {
                if effective_presence_enabled(s) && is_track(playable) {
                    ActionSpec::SetActivity(paused_payload(s, track_of(playable)))
                } else {
                    ActionSpec::DoNothing
                }
            },
            PlayerEvent::Stopped => ActionSpec::ClearActivity,
            PlayerEvent::FinishedTrack => {
                if has_logger && is_track(playable) {
                    ActionSpec::Submit(record_of(track_of(playable)))
                } else {
                    ActionSpec::DoNothing
                }
            },
        }
    }
}

/// Builds the play record for a finished track, with both fallbacks.
pub fn build_record(t: &Track) -> (r: LogRecord)
    ensures
        r@ == record_of(*t),
{
    let artist = if t.artists.len() == 0 {
        String::from_str("Unknown Artist")
    } else {
        join_artists(&t.artists)
    };
    let album = match &t.album {
        Some(a) => a.clone(),
        None => String::from_str("Unknown Album"),
    };
    LogRecord { artist, title: t.title.clone(), album }
}

/// The cover image reference as executable code.
fn large_image_text(t: &Track) -> (r: String)
    ensures
        r@ == large_image_of(*t),
{
    match &t.cover_url {
        Some(u) => u.clone(),
        None => String::from_str(DISCORD_IMAGE_LOGO),
    }
}

/// Builds the payload for a playing track at wall time `now`.
pub fn build_playing_payload(s: &Settings, t: &Track, now: u64, elapsed: u64) -> (p:
    PresencePayload)
    ensures
        p@ == playing_payload(*s, *t, now, elapsed),
{
    let dt = details_template_of(s);
    let st = state_template_of(s);
    PresencePayload {
        details: render(t, dt.as_str()),
        state: render(t, st.as_str()),
        large_image: large_image_text(t),
        large_text: String::from_str(DISCORD_LARGE_TEXT),
        small_image: String::from_str(DISCORD_IMAGE_PLAY),
        small_text: String::from_str(DISCORD_PLAYING),
        start_timestamp: Some(if elapsed <= now { now - elapsed } else { 0 }),
    }
}

/// Builds the payload for a paused track.
pub fn build_paused_payload(s: &Settings, t: &Track) -> (p: PresencePayload)
    ensures
        p@ == paused_payload(*s, *t),
{
    let dt = details_template_of(s);
    let st = state_template_of(s);
    PresencePayload {
        details: render(t, dt.as_str()),
        state: render(t, st.as_str()),
        large_image: large_image_text(t),
        large_text: String::from_str(DISCORD_LARGE_TEXT),
        small_image: String::from_str(DISCORD_IMAGE_PAUSE),
        small_text: String::from_str(DISCORD_PAUSED),
        start_timestamp: None,
    }
}

/// The dispatcher's decision as executable code, equal to `decide`.
pub fn plan_update(
    s: &Settings,
    has_logger: bool,
    event: &PlayerEvent,
    playable: &Option<Playable>,
    now: u64,
) -> (a: Action)
    ensures
        a@ == decide(*s, has_logger, *event, *playable, now),
{
    if !s.is_enabled() {
        return Action::DoNothing;
    }
    match event {
        PlayerEvent::Playing(elapsed) => {
            if s.is_presence_enabled() {
                match playable {
                    Some(Playable::Track(t)) => Action::SetActivity(
                        build_playing_payload(s, t, now, *elapsed),
                    ),
                    _ => Action::DoNothing,
                }
            } else {
                Action::DoNothing
            }
        },
        PlayerEvent::Paused(_) => {
            if s.is_presence_enabled() {
                match playable {
                    Some(Playable::Track(t)) => Action::SetActivity(build_paused_payload(s, t)),
                    _ => Action::DoNothing,
                }
            } else {
                Action::DoNothing
            }
        },
        PlayerEvent::Stopped => Action::ClearActivity,
        PlayerEvent::FinishedTrack => {
            if has_logger {
                match playable {
                    Some(Playable::Track(t)) => Action::Submit(build_record(t)),
                    _ => Action::DoNothing,
                }
            } else {
                Action::DoNothing
            }
        },
    }
}

} // verus!
