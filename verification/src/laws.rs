//! The library's laws: what holds of the dispatcher and of authentication
//! resolution for every input, stated and proved once, here.

use vstd::prelude::*;

use crate::auth::auth_plan;
use crate::auth::session_matches;
use crate::auth::AuthPlanSpec;
use crate::format::details_template;
use crate::format::state_template;
use crate::manager::outcome_matches;
use crate::model::PlayerEvent;
use crate::model::Playable;
use crate::model::ReportError;
use crate::model::SessionState;
use crate::model::Settings;
use crate::model::Track;
use crate::model::effective_enabled;
use crate::model::effective_presence_enabled;
use crate::model::is_track;
use crate::model::track_of;
use crate::plan::decide;
use crate::plan::record_of;
use crate::plan::Action;
use crate::plan::ActionSpec;

verus! {

/// With the master flag off the dispatcher is a no-op for every event: the
/// decision is to do nothing, and a dispatch can then only report that
/// nothing was done — no connector is called.
pub proof fn lemma_disabled_is_inert(
    s: Settings,
    has_logger: bool,
    event: PlayerEvent,
    playable: Option<Playable>,
    now: u64,
    r: Result<Action, ReportError>,
)
    requires
        !effective_enabled(s),
        outcome_matches(decide(s, has_logger, event, playable, now), r),
    ensures
        decide(s, has_logger, event, playable, now) is DoNothing,
        r matches Ok(a) && a@ is DoNothing,
{
}

/// A `Playing` or `Paused` event on anything but a track decides no
/// presence update, whatever the settings.
pub proof fn lemma_non_track_no_presence(
    s: Settings,
    has_logger: bool,
    event: PlayerEvent,
    playable: Option<Playable>,
    now: u64,
)
    requires
        event is Playing || event is Paused,
        !is_track(playable),
    ensures
        decide(s, has_logger, event, playable, now) is DoNothing,
{
}

/// `Stopped` with the master flag on always decides exactly one clear of
/// the presence, whatever the presence flag, the playable and the logging
/// connector; the dispatch then either performed that clear or reports the
/// presence connector's failure.
pub proof fn lemma_stopped_always_clears(
    s: Settings,
    has_logger: bool,
    playable: Option<Playable>,
    now: u64,
    r: Result<Action, ReportError>,
)
    requires
        effective_enabled(s),
        outcome_matches(decide(s, has_logger, PlayerEvent::Stopped, playable, now), r),
    ensures
        decide(s, has_logger, PlayerEvent::Stopped, playable, now) is ClearActivity,
        r matches Ok(a) ==> a@ is ClearActivity,
        r matches Err(e) ==> e == ReportError::PresenceUpdate,
{
}

/// `FinishedTrack` decides a submission exactly when the master flag is on,
/// a logging connector exists and the playable is a track — and then the
/// submitted record is the track's, fallbacks included.
pub proof fn lemma_finished_submits_iff(
    s: Settings,
    has_logger: bool,
    playable: Option<Playable>,
    now: u64,
)
    ensures
        decide(s, has_logger, PlayerEvent::FinishedTrack, playable, now) is Submit <==> (
        effective_enabled(s) && has_logger && is_track(playable)),
        effective_enabled(s) && has_logger && is_track(playable) ==> decide(
            s,
            has_logger,
            PlayerEvent::FinishedTrack,
            playable,
            now,
        ) == ActionSpec::Submit(record_of(track_of(playable))),
{
}

/// A track with an empty artist list and no album is logged as
/// "Unknown Artist" and "Unknown Album", under its own title.
pub proof fn lemma_record_fallbacks(t: Track)
    requires
        t.artists@.len() == 0,
        t.album is None,
    ensures
        record_of(t).artist == "Unknown Artist"@,
        record_of(t).title == t.title@,
        record_of(t).album == "Unknown Album"@,
{
}

/// With complete credentials, a persisted session key stored for the
/// configured username is reused — no password exchange is planned — and on
/// a mismatch (or with no stored session) the password exchange is planned.
pub proof fn lemma_session_reuse(s: Settings, st: SessionState)
    requires
        s.lastfm_api_key is Some,
        s.lastfm_api_secret is Some,
        s.lastfm_username matches Some(u),
        s.lastfm_password is Some,
    ensures
        session_matches(st, s.lastfm_username->0@) ==> auth_plan(s, st) is UseSession,
        !session_matches(st, s.lastfm_username->0@) ==> auth_plan(s, st) is UsePassword,
{
}

/// `Playing` with elapsed play time `elapsed` at wall time `now` decides a
/// presence payload whose start timestamp is `now - elapsed`, as long as
/// that does not reach before the epoch.
pub proof fn lemma_playing_timestamp(
    s: Settings,
    has_logger: bool,
    playable: Option<Playable>,
    now: u64,
    elapsed: u64,
)
    requires
        effective_enabled(s),
        effective_presence_enabled(s),
        is_track(playable),
        elapsed <= now,
    ensures
        decide(s, has_logger, PlayerEvent::Playing(elapsed), playable, now) matches
            ActionSpec::SetActivity(p) && p.start_timestamp == Some((now - elapsed) as u64),
{
}

/// Template fields missing from the settings fall back to their documented
/// literals: "%artists / %album" for the details line and "%title" for the
/// state line.
pub proof fn lemma_template_defaults(s: Settings)
    ensures
        s.discord_format_details is None ==> details_template(s) == "%artists / %album"@,
        s.discord_format_state is None ==> state_template(s) == "%title"@,
{
}

} // verus!
