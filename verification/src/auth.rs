//! Authentication resolution for the logging service: from a settings
//! snapshot and the persisted session state, decide how — and whether — the
//! logging connector is to be authenticated.
//!
//! `auth_plan` is the mathematical statement of the resolution; `plan_auth`
//! is its executable counterpart and is proved equal to it.

use vstd::prelude::*;

use crate::model::SessionState;
use crate::model::Settings;

verus! {

/// How the logging connector is to be authenticated, if at all.
pub ghost enum AuthPlanSpec {
    /// Logging stays off: the API credentials or the user credentials are
    /// incomplete. No error; the rest of the system runs on.
    Disabled,
    /// A persisted session key was issued for the configured username:
    /// reuse it, with no credential exchange.
    UseSession { api_key: Seq<char>, api_secret: Seq<char>, session_key: Seq<char> },
    /// No reusable session: exchange the username and password for a new
    /// session key, to be persisted on success.
    UsePassword {
        api_key: Seq<char>,
        api_secret: Seq<char>,
        username: Seq<char>,
        password: Seq<char>,
    },
}

/// The executable counterpart of `AuthPlanSpec`.
#[derive(Clone, Debug)]
pub enum AuthPlan {
    Disabled,
    UseSession { api_key: String, api_secret: String, session_key: String },
    UsePassword { api_key: String, api_secret: String, username: String, password: String },
}

impl View for AuthPlan {
    type V = AuthPlanSpec;

    open spec fn view(&self) -> AuthPlanSpec {
        match self {
            AuthPlan::Disabled => AuthPlanSpec::Disabled,
            AuthPlan::UseSession { api_key, api_secret, session_key } => AuthPlanSpec::UseSession {
                api_key: api_key@,
                api_secret: api_secret@,
                session_key: session_key@,
            },
            AuthPlan::UsePassword {
                api_key,
                api_secret,
                username,
                password,
            } => AuthPlanSpec::UsePassword {
                api_key: api_key@,
                api_secret: api_secret@,
                username: username@,
                password: password@,
            },
        }
    }
}

/// Whether the persisted session state holds a key issued for `username`.
pub open spec fn session_matches(st: SessionState, username: Seq<char>) -> bool {
    match (st.lastfm_session_key, st.lastfm_session_user) {
        (Some(_), Some(su)) => su@ == username,
        _ => false,
    }
}

/// The authentication resolution. Logging is disabled where the API key
/// pair or the user credentials are incomplete; a persisted session key
/// whose stored username equals the configured one is reused; otherwise
/// the password flow is taken.
pub open spec fn auth_plan(s: Settings, st: SessionState) -> AuthPlanSpec {
    match (s.lastfm_api_key, s.lastfm_api_secret) {
        (Some(key), Some(secret)) => match (s.lastfm_username, s.lastfm_password) {
            (Some(user), Some(pass)) => {
                if session_matches(st, user@) {
                    AuthPlanSpec::UseSession {
                        api_key: key@,
                        api_secret: secret@,
                        session_key: match st.lastfm_session_key {
                            Some(sk) => sk@,
                            None => Seq::<char>::empty(),
                        },
                    }
                } else {
                    AuthPlanSpec::UsePassword {
                        api_key: key@,
                        api_secret: secret@,
                        username: user@,
                        password: pass@,
                    }
                }
            },
            _ => AuthPlanSpec::Disabled,
        },
        _ => AuthPlanSpec::Disabled,
    }
}

/// The authentication resolution as executable code, equal to `auth_plan`.
pub fn plan_auth(s: &Settings, st: &SessionState) -> (p: AuthPlan)
    ensures
        p@ == auth_plan(*s, *st),
{
    let (key, secret) = match (&s.lastfm_api_key, &s.lastfm_api_secret) {
        (Some(k), Some(sec)) => (k.clone(), sec.clone()),
        _ => {
            return AuthPlan::Disabled;
        },
    };
    let (user, pass) = match (&s.lastfm_username, &s.lastfm_password) {
        (Some(u), Some(p)) => (u.clone(), p.clone()),
        _ => {
            return AuthPlan::Disabled;
        },
    };
    match (&st.lastfm_session_key, &st.lastfm_session_user) {
        (Some(sk), Some(su)) => {
            if su.eq(&user) {
                return AuthPlan::UseSession {
                    api_key: key,
                    api_secret: secret,
                    session_key: sk.clone(),
                };
            }
        },
        _ => {},
    }
    AuthPlan::UsePassword { api_key: key, api_secret: secret, username: user, password: pass }
}

} // verus!
