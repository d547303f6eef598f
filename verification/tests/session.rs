//! Tests of authentication resolution and of the orchestrator against the
//! real connectors.

use scrobbler_core::auth::{plan_auth, AuthPlan};
use scrobbler_core::manager::ScrobblerManager;
use scrobbler_core::model::{
    Playable, PlayerEvent, ReportError, SessionState, Settings, Track,
};
use scrobbler_core::plan::Action;

fn empty_session() -> SessionState {
    SessionState { lastfm_session_key: None, lastfm_session_user: None }
}

fn credentialed_settings() -> Settings {
    let mut s = Settings::all_absent();
    s.enabled = Some(true);
    s.lastfm_api_key = Some(String::from("api-key-1"));
    s.lastfm_api_secret = Some(String::from("api-secret-1"));
    s.lastfm_username = Some(String::from("listener"));
    s.lastfm_password = Some(String::from("pw-1"));
    s
}

fn matching_session() -> SessionState {
    SessionState {
        lastfm_session_key: Some(String::from("sess-key-1")),
        lastfm_session_user: Some(String::from("listener")),
    }
}

fn sample_track() -> Track {
    Track {
        title: String::from("Song"),
        album: None,
        artists: Vec::new(),
        cover_url: None,
    }
}

#[test]
fn missing_api_keys_disable_logging() {
    let mut s = credentialed_settings();
    s.lastfm_api_key = None;
    assert!(matches!(plan_auth(&s, &empty_session()), AuthPlan::Disabled));
    let mut s = credentialed_settings();
    s.lastfm_api_secret = None;
    assert!(matches!(plan_auth(&s, &empty_session()), AuthPlan::Disabled));
}

#[test]
fn missing_user_credentials_disable_logging() {
    let mut s = credentialed_settings();
    s.lastfm_username = None;
    assert!(matches!(plan_auth(&s, &empty_session()), AuthPlan::Disabled));
    let mut s = credentialed_settings();
    s.lastfm_password = None;
    assert!(matches!(plan_auth(&s, &empty_session()), AuthPlan::Disabled));
}

#[test]
fn matching_stored_session_is_reused() {
    let s = credentialed_settings();
    match plan_auth(&s, &matching_session()) {
        AuthPlan::UseSession { session_key, .. } => {
            assert_eq!(session_key, "sess-key-1");
        }
        _ => panic!("a stored session for the configured username must be reused"),
    }
}

#[test]
fn mismatched_stored_session_takes_password_flow() {
    let s = credentialed_settings();
    let mut st = matching_session();
    st.lastfm_session_user = Some(String::from("someone_else"));
    match plan_auth(&s, &st) {
        AuthPlan::UsePassword { username, .. } => assert_eq!(username, "listener"),
        _ => panic!("a session stored for another username must not be reused"),
    }
}

#[test]
fn absent_stored_session_takes_password_flow() {
    let s = credentialed_settings();
    assert!(matches!(plan_auth(&s, &empty_session()), AuthPlan::UsePassword { .. }));
}

#[test]
fn manager_without_credentials_has_no_logger() {
    let s = Settings::all_absent();
    let mut st = empty_session();
    let m = ScrobblerManager::new(&s, &mut st);
    assert!(!m.has_scrobbler());
    assert!(st.lastfm_session_key.is_none());
    assert!(st.lastfm_session_user.is_none());
}

#[test]
fn manager_reuses_session_without_exchange() {
    let s = credentialed_settings();
    let mut st = matching_session();
    let mut m = ScrobblerManager::new(&s, &mut st);
    // The session path makes no network round trip, so the connector must
    // exist and the stored state must be untouched.
    assert!(m.has_scrobbler());
    assert_eq!(st.lastfm_session_key.as_deref(), Some("sess-key-1"));
    assert_eq!(st.lastfm_session_user.as_deref(), Some("listener"));
    let r = m.set_lastfm(&s, &mut st);
    assert_eq!(r, Ok(()));
    assert!(m.has_scrobbler());
}

#[test]
fn password_flow_outcome_is_consistent() {
    let s = credentialed_settings();
    let mut st = empty_session();
    let mut m = ScrobblerManager::new(&s, &mut st);
    let r = m.set_lastfm(&s, &mut st);
    match r {
        Ok(()) => {
            assert!(m.has_scrobbler());
            assert!(st.lastfm_session_key.is_some());
            assert_eq!(st.lastfm_session_user.as_deref(), Some("listener"));
        }
        Err(e) => {
            assert_eq!(e, ReportError::Authentication);
            assert!(!m.has_scrobbler());
            assert!(st.lastfm_session_key.is_none());
            assert!(st.lastfm_session_user.is_none());
        }
    }
}

#[test]
fn manager_disabled_update_does_nothing() {
    let s = Settings::all_absent();
    let mut st = empty_session();
    let mut m = ScrobblerManager::new(&s, &mut st);
    let r = m.update_scrobbler(
        &s,
        &PlayerEvent::Playing(30),
        &Some(Playable::Track(sample_track())),
    );
    assert!(matches!(r, Ok(Action::DoNothing)));
}

#[test]
fn manager_stopped_clears_or_reports_presence_failure() {
    let mut s = Settings::all_absent();
    s.enabled = Some(true);
    let mut st = empty_session();
    let mut m = ScrobblerManager::new(&s, &mut st);
    let r = m.update_scrobbler(&s, &PlayerEvent::Stopped, &None);
    assert!(matches!(
        r,
        Ok(Action::ClearActivity) | Err(ReportError::PresenceUpdate)
    ));
}

#[test]
fn manager_finished_track_submits_or_reports() {
    let s = credentialed_settings();
    let mut st = matching_session();
    let mut m = ScrobblerManager::new(&s, &mut st);
    assert!(m.has_scrobbler());
    let r = m.update_scrobbler(
        &s,
        &PlayerEvent::FinishedTrack,
        &Some(Playable::Track(sample_track())),
    );
    match r {
        Ok(Action::Submit(rec)) => {
            assert_eq!(rec.artist, "Unknown Artist");
            assert_eq!(rec.album, "Unknown Album");
        }
        Err(e) => assert_eq!(e, ReportError::ScrobbleSubmission),
        other => panic!("unexpected outcome: {other:?}"),
    }
}
