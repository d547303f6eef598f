//! The orchestrator: owns the two connectors, resolves authentication at
//! construction, and performs exactly the action that the dispatcher
//! decides for each playback event.

use vstd::prelude::*;

use crate::auth::AuthPlanSpec;
use crate::auth::auth_plan;
use crate::auth::plan_auth;
use crate::auth::AuthPlan;
use crate::connect::discord_clear_activity;
use crate::connect::discord_new;
use crate::connect::discord_set_activity;
use crate::connect::discord_start;
use crate::connect::scrobbler_auth_password;
use crate::connect::scrobbler_auth_session;
use crate::connect::scrobbler_new;
use crate::connect::scrobbler_submit;
use crate::connect::unix_now;
use crate::model::PlayerEvent;
use crate::model::Playable;
use crate::model::ReportError;
use crate::model::SessionState;
use crate::model::Settings;
use crate::plan::decide;
use crate::plan::plan_update;
use crate::plan::Action;
use crate::plan::ActionSpec;
use crate::plan::DISCORD_APP_ID;

verus! {

/// What the authentication handshake leaves behind, given the resolved
/// plan and its result `r`. A disabled or session-reusing plan always
/// succeeds and writes nothing; the password flow either succeeds — the
/// connector exists and the new session key is persisted under the
/// configured username — or fails with `Authentication`, leaving both the
/// connector and the session state untouched.
pub open spec fn auth_outcome_ok(
    plan: AuthPlanSpec,
    had: SessionState,
    now_st: SessionState,
    has_logger: bool,
    r: Result<(), ReportError>,
) -> bool {
    match plan {
        AuthPlanSpec::Disabled => r is Ok && !has_logger && now_st == had,
        AuthPlanSpec::UseSession { .. } => r is Ok && has_logger && now_st == had,
        AuthPlanSpec::UsePassword { username, .. } => match r {
            Ok(_) => has_logger && now_st.lastfm_session_key is Some && match now_st
                .lastfm_session_user {
                Some(u) => u@ == username,
                None => false,
            },
            Err(e) => e == ReportError::Authentication && !has_logger && now_st == had,
        },
    }
}

/// `auth_outcome_ok` with the result abstracted away: what holds of the
/// session state and the connector whichever way the handshake went.
pub open spec fn auth_outcome_settled(
    plan: AuthPlanSpec,
    had: SessionState,
    now_st: SessionState,
    has_logger: bool,
) -> bool {
    match plan {
        AuthPlanSpec::Disabled => !has_logger && now_st == had,
        AuthPlanSpec::UseSession { .. } => has_logger && now_st == had,
        AuthPlanSpec::UsePassword { username, .. } => if has_logger {
            now_st.lastfm_session_key is Some && match now_st.lastfm_session_user {
                Some(u) => u@ == username,
                None => false,
            }
        } else {
            now_st == had
        },
    }
}

/// How one dispatched event may end, given the decided action. On success
/// the performed action is exactly the decided one; a decided presence
/// update or clear may instead fail with `PresenceUpdate`, a decided
/// submission with `ScrobbleSubmission`; a decision to do nothing cannot
/// fail, for no connector is called.
pub open spec fn outcome_matches(decided: ActionSpec, r: Result<Action, ReportError>) -> bool {
    match r {
        Ok(a) => a@ == decided,
        Err(e) => match decided {
            ActionSpec::DoNothing => false,
            ActionSpec::SetActivity(_) => e == ReportError::PresenceUpdate,
            ActionSpec::ClearActivity => e == ReportError::PresenceUpdate,
            ActionSpec::Submit(_) => e == ReportError::ScrobbleSubmission,
        },
    }
}

/// The orchestrator. It holds the presence client and, once authentication
/// has succeeded, the logging client.
pub struct ScrobblerManager {
    scrobbler: Option<rustfm_scrobble::Scrobbler>,
    discord: discord_presence::Client,
}

impl ScrobblerManager {
    /// Whether a logging connector was successfully constructed.
    pub closed spec fn spec_has_logger(&self) -> bool {
        self.scrobbler is Some
    }

    /// Whether a logging connector was successfully constructed, as
    /// executable code.
    pub fn has_scrobbler(&self) -> (b: bool)
        ensures
            b == self.spec_has_logger(),
    {
        self.scrobbler.is_some()
    }

    /// Builds the orchestrator: starts the presence connector and resolves
    /// authentication for the logging connector. An authentication failure
    /// leaves logging off; it never stops construction.
    pub fn new(settings: &Settings, session: &mut SessionState) -> (m: ScrobblerManager)
        ensures
            auth_outcome_settled(
                auth_plan(*settings, *old(session)),
                *old(session),
                *final(session),
                m.spec_has_logger(),
            ),
    {
        let mut discord = discord_new(DISCORD_APP_ID);
        discord_start(&mut discord);
        let mut m = ScrobblerManager { scrobbler: None, discord };
        let _ = m.set_lastfm(settings, session);
        m
    }

    /// Resolves authentication for the logging service as `auth_plan`
    /// directs: disabled settings leave logging off; a matching persisted
    /// session key is reused without a credential exchange; otherwise the
    /// password flow runs, and on success the issued session key is
    /// persisted under the configured username.
    pub fn set_lastfm(&mut self, settings: &Settings, session: &mut SessionState) -> (r: Result<
        (),
        ReportError,
    >)
        ensures
            auth_outcome_ok(
                auth_plan(*settings, *old(session)),
                *old(session),
                *final(session),
                final(self).spec_has_logger(),
                r,
            ),
    {
        match plan_auth(settings, session) {
            AuthPlan::Disabled => {
                self.scrobbler = None;
                Ok(())
            },
            AuthPlan::UseSession { api_key, api_secret, session_key } => {
                let mut sc = scrobbler_new(api_key.as_str(), api_secret.as_str());
                scrobbler_auth_session(&mut sc, session_key.as_str());
                self.scrobbler = Some(sc);
                Ok(())
            },
            AuthPlan::UsePassword { api_key, api_secret, username, password } => {
                let mut sc = scrobbler_new(api_key.as_str(), api_secret.as_str());
                match scrobbler_auth_password(&mut sc, username.as_str(), password.as_str()) {
                    Ok(key) => {
                        session.lastfm_session_key = Some(key);
                        session.lastfm_session_user = Some(username);
                        self.scrobbler = Some(sc);
                        Ok(())
                    },
                    Err(_) => {
                        self.scrobbler = None;
                        Err(ReportError::Authentication)
                    },
                }
            },
        }
    }

    /// Dispatches one playback event at the given wall time: performs the
    /// action that `decide` names — and no other — and reports how it went.
    pub fn update_with_now(
        &mut self,
        settings: &Settings,
        event: &PlayerEvent,
        playable: &Option<Playable>,
        now: u64,
    ) -> (r: Result<Action, ReportError>)
        ensures
            outcome_matches(
                decide(*settings, old(self).spec_has_logger(), *event, *playable, now),
                r,
            ),
            final(self).spec_has_logger() == old(self).spec_has_logger(),
    {
        let has_logger = self.has_scrobbler();
        let action = plan_update(settings, has_logger, event, playable, now);
        match action {
            Action::DoNothing => Ok(Action::DoNothing),
            Action::SetActivity(p) => match discord_set_activity(&mut self.discord, &p) {
                Ok(_) => Ok(Action::SetActivity(p)),
                Err(_) => Err(ReportError::PresenceUpdate),
            },
            Action::ClearActivity => match discord_clear_activity(&mut self.discord) {
                Ok(_) => Ok(Action::ClearActivity),
                Err(_) => Err(ReportError::PresenceUpdate),
            },
            Action::Submit(rec) => match &self.scrobbler {
                Some(sc) => match scrobbler_submit(
                    sc,
                    rec.artist.as_str(),
                    rec.title.as_str(),
                    rec.album.as_str(),
                ) {
                    Ok(_) => Ok(Action::Submit(rec)),
                    Err(_) => Err(ReportError::ScrobbleSubmission),
                },
                None => {
                    // A submission is decided only with a logging connector
                    // at hand, so this arm cannot be reached.
                    proof {
                        assert(false);
                    }
                    Err(ReportError::ScrobbleSubmission)
                },
            },
        }
    }

    /// Dispatches one playback event at the present wall time. The wall
    /// time is read once; everything else is `update_with_now`.
    pub fn update_scrobbler(
        &mut self,
        settings: &Settings,
        event: &PlayerEvent,
        playable: &Option<Playable>,
    ) -> (r: Result<Action, ReportError>)
        ensures
            exists|now: u64|
                outcome_matches(
                    decide(*settings, old(self).spec_has_logger(), *event, *playable, now),
                    r,
                ),
            final(self).spec_has_logger() == old(self).spec_has_logger(),
    {
        let now = unix_now();
        let r = self.update_with_now(settings, event, playable, now);
        proof {
            assert(outcome_matches(
                decide(*settings, old(self).spec_has_logger(), *event, *playable, now),
                r,
            ));
        }
        r
    }
}

} // verus!
