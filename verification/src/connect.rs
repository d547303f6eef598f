//! Trusted boundary to the two external connectors and to the wall clock.
//!
//! Each item here wraps exactly one call into an outside crate (or std).
//! Verus believes the declared contracts without reading the bodies; the
//! doc comment of each item names the outside function it relies on. None
//! of them promises that an outside call succeeds: the verified callers
//! state what holds of every outcome.

use vstd::prelude::*;

use crate::plan::PresencePayload;

verus! {

/// The presence connector's client type, opaque to verification.
#[verifier::external_type_specification]
#[verifier::external_body]
pub struct ExClient(discord_presence::Client);

/// The presence connector's error type, opaque to verification.
#[verifier::external_type_specification]
#[verifier::external_body]
pub struct ExDiscordError(discord_presence::DiscordError);

/// The logging connector's client type, opaque to verification.
#[verifier::external_type_specification]
#[verifier::external_body]
pub struct ExScrobbler(rustfm_scrobble::Scrobbler);

/// The logging connector's error type, opaque to verification.
#[verifier::external_type_specification]
#[verifier::external_body]
pub struct ExScrobblerError(rustfm_scrobble::ScrobblerError);

/// Relies on `discord_presence::Client::new`: builds a presence client for
/// the given application identifier; no connection is made yet.
#[verifier::external_body]
pub(crate) fn discord_new(app_id: u64) -> discord_presence::Client {
    discord_presence::Client::new(app_id)
}

/// Relies on `discord_presence::Client::start`: spawns the connection
/// manager thread; returns at once.
#[verifier::external_body]
pub(crate) fn discord_start(c: &mut discord_presence::Client) {
    c.start();
}

/// Relies on `discord_presence::Client::set_activity`: sends one "set
/// activity" command built from the payload's fields; returns the
/// connector's error where the command cannot be delivered.
#[verifier::external_body]
pub(crate) fn discord_set_activity(
    c: &mut discord_presence::Client,
    p: &PresencePayload,
) -> Result<(), discord_presence::DiscordError> {
    let r = c.set_activity(|act| {
        let act = act.details(p.details.clone()).state(p.state.clone()).assets(
            |a| {
                a.large_image(p.large_image.clone()).large_text(p.large_text.clone()).small_image(
                    p.small_image.clone(),
                ).small_text(p.small_text.clone())
            },
        );
        match p.start_timestamp {
            Some(ts) => act.timestamps(|t| t.start(ts)),
            None => act,
        }
    });
    r.map(|_| ())
}

/// Relies on `discord_presence::Client::clear_activity`: sends one "clear
/// activity" command; returns the connector's error where the command
/// cannot be delivered.
#[verifier::external_body]
pub(crate) fn discord_clear_activity(c: &mut discord_presence::Client) -> Result<
    (),
    discord_presence::DiscordError,
> {
    c.clear_activity().map(|_| ())
}

/// Relies on `rustfm_scrobble::Scrobbler::new`: builds a logging client
/// from the API key pair; no network traffic.
#[verifier::external_body]
pub(crate) fn scrobbler_new(api_key: &str, api_secret: &str) -> rustfm_scrobble::Scrobbler {
    rustfm_scrobble::Scrobbler::new(api_key, api_secret)
}

/// Relies on `rustfm_scrobble::Scrobbler::authenticate_with_session_key`:
/// stores the session key on the client; cannot fail and makes no network
/// round trip.
#[verifier::external_body]
pub(crate) fn scrobbler_auth_session(s: &mut rustfm_scrobble::Scrobbler, session_key: &str) {
    s.authenticate_with_session_key(session_key);
}

/// Relies on `rustfm_scrobble::Scrobbler::authenticate_with_password`:
/// exchanges the credentials for a session key over the network and returns
/// that key, or the connector's error.
#[verifier::external_body]
pub(crate) fn scrobbler_auth_password(
    s: &mut rustfm_scrobble::Scrobbler,
    username: &str,
    password: &str,
) -> Result<String, rustfm_scrobble::ScrobblerError> {
    match s.authenticate_with_password(username, password) {
        Ok(resp) => Ok(resp.key),
        Err(e) => Err(e),
    }
}

/// Relies on `rustfm_scrobble::Scrobbler::scrobble` (with
/// `rustfm_scrobble::Scrobble::new` packaging the three record fields):
/// submits one play record, or returns the connector's error.
#[verifier::external_body]
pub(crate) fn scrobbler_submit(
    s: &rustfm_scrobble::Scrobbler,
    artist: &str,
    title: &str,
    album: &str,
) -> Result<(), rustfm_scrobble::ScrobblerError> {
    let record = rustfm_scrobble::Scrobble::new(artist, title, album);
    match s.scrobble(&record) {
        Ok(_) => Ok(()),
        Err(e) => Err(e),
    }
}

/// Relies on `std::time::SystemTime::now` (with `duration_since` and
/// `Duration::as_secs` converting the reading): the wall time as whole
/// seconds since the Unix epoch, or zero where the clock stands before it.
/// The result depends on the clock, so nothing is promised of it.
#[verifier::external_body]
pub(crate) fn unix_now() -> u64 {
    match std::time::SystemTime::now().duration_since(std::time::UNIX_EPOCH) {
        Ok(d) => d.as_secs(),
        Err(_) => 0,
    }
}

} // verus!
