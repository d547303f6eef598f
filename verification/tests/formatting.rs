//! Tests of template rendering and the default templates.

use scrobbler_core::format::{details_template_of, join_artists, render, state_template_of};
use scrobbler_core::model::{Playable, PlayerEvent, Settings, Track};
use scrobbler_core::plan::{plan_update, Action};

fn duo_track() -> Track {
    Track {
        title: String::from("T"),
        album: Some(String::from("Al")),
        artists: vec![String::from("A"), String::from("B")],
        cover_url: None,
    }
}

#[test]
fn template_defaults_are_the_documented_literals() {
    let s = Settings::all_absent();
    assert_eq!(details_template_of(&s), "%artists / %album");
    assert_eq!(state_template_of(&s), "%title");
}

#[test]
fn configured_templates_are_used_as_given() {
    let mut s = Settings::all_absent();
    s.discord_format_details = Some(String::from("%title by %artists"));
    s.discord_format_state = Some(String::from("on %album"));
    assert_eq!(details_template_of(&s), "%title by %artists");
    assert_eq!(state_template_of(&s), "on %album");
}

#[test]
fn default_templates_shape_the_payload() {
    let mut s = Settings::all_absent();
    s.enabled = Some(true);
    let a = plan_update(&s, false, &PlayerEvent::Playing(0), &Some(Playable::Track(duo_track())), 0);
    match a {
        Action::SetActivity(p) => {
            assert_eq!(p.details, "A, B / Al");
            assert_eq!(p.state, "T");
        }
        _ => panic!("playing a track must set a presence payload"),
    }
}

#[test]
fn join_artists_in_list_order() {
    assert_eq!(join_artists(&vec![]), "");
    assert_eq!(join_artists(&vec![String::from("Solo")]), "Solo");
    let three = vec![String::from("A"), String::from("B"), String::from("C")];
    assert_eq!(join_artists(&three), "A, B, C");
}

#[test]
fn render_replaces_every_token() {
    let t = duo_track();
    assert_eq!(render(&t, "%artists / %album"), "A, B / Al");
    assert_eq!(render(&t, "%title%title"), "TT");
    assert_eq!(render(&t, ""), "");
}

#[test]
fn render_keeps_other_characters() {
    let t = duo_track();
    assert_eq!(render(&t, "50% done %titled"), "50% done Td");
    assert_eq!(render(&t, "%art"), "%art");
}

#[test]
fn render_missing_album_is_empty() {
    let mut t = duo_track();
    t.album = None;
    assert_eq!(render(&t, "x %album y"), "x  y");
}

#[test]
fn render_empty_artist_list_is_empty() {
    let mut t = duo_track();
    t.artists = Vec::new();
    assert_eq!(render(&t, "[%artists]"), "[]");
}

#[test]
fn render_artists_token_takes_precedence_over_album() {
    // "%a" begins both tokens; the longer one must win where it stands.
    let t = duo_track();
    assert_eq!(render(&t, "%artists%album"), "A, BAl");
}
