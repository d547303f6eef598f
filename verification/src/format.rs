//! Display-string formatting: joining artist names and rendering the
//! presence templates over a track's metadata.
//!
//! A template is an arbitrary string in which the tokens `%artists`,
//! `%album` and `%title` stand for the track's joined artist names, its
//! album name and its title; every other character is kept as it is.

use vstd::prelude::*;
use vstd::string::StrSliceExecFns;
use vstd::string::StringExecFns;

use crate::model::Settings;
use crate::model::Track;

verus! {

/// The artist names joined with a comma and a space, in list order.
pub open spec fn artists_joined(artists: Seq<String>) -> Seq<char>
    decreases artists.len(),
{
    if artists.len() == 0 {
        Seq::<char>::empty()
    } else if artists.len() == 1 {
        artists[0]@
    } else {
        artists_joined(artists.drop_last()) + ", "@ + artists.last()@
    }
}

/// The album name, or the empty string where the track has none.
pub open spec fn album_or_empty(t: Track) -> Seq<char> {
    match t.album {
        Some(a) => a@,
        None => Seq::<char>::empty(),
    }
}

/// The template with every token replaced by the track's data: `%artists`
/// by the joined artist names, `%album` by the album name or nothing,
/// `%title` by the title. Tokens are read left to right; `%artists` is
/// tried before `%album` so that the shared `%a` prefix cannot split it.
pub open spec fn rendered(t: Track, tpl: Seq<char>) -> Seq<char>
    decreases tpl.len(),
{
    if tpl.len() == 0 {
        Seq::<char>::empty()
    } else if tpl.len() >= 8 && tpl.subrange(0, 8) == "%artists"@ {
        artists_joined(t.artists@) + rendered(t, tpl.skip(8))
    } else if tpl.len() >= 6 && tpl.subrange(0, 6) == "%album"@ {
        album_or_empty(t) + rendered(t, tpl.skip(6))
    } else if tpl.len() >= 6 && tpl.subrange(0, 6) == "%title"@ {
        t.title@ + rendered(t, tpl.skip(6))
    } else {
        seq![tpl[0]] + rendered(t, tpl.skip(1))
    }
}

/// The template for the presence "details" line, with its documented
/// default.
pub open spec fn details_template(s: Settings) -> Seq<char> {
    match s.discord_format_details {
        Some(t) => t@,
        None => "%artists / %album"@,
    }
}

/// The template for the presence "state" line, with its documented default.
pub open spec fn state_template(s: Settings) -> Seq<char> {
    match s.discord_format_state {
        Some(t) => t@,
        None => "%title"@,
    }
}

/// The configured "details" template, or its default.
pub fn details_template_of(s: &Settings) -> (r: String)
    ensures
        r@ == details_template(*s),
{
    match &s.discord_format_details {
        Some(t) => t.clone(),
        None => String::from_str("%artists / %album"),
    }
}

/// The configured "state" template, or its default.
pub fn state_template_of(s: &Settings) -> (r: String)
    ensures
        r@ == state_template(*s),
{
    match &s.discord_format_state {
        Some(t) => t.clone(),
        None => String::from_str("%title"),
    }
}

/// Joins the artist names with a comma and a space.
pub fn join_artists(artists: &Vec<String>) -> (r: String)
    ensures
        r@ == artists_joined(artists@),
{
    let mut r = String::new();
    let mut i: usize = 0;
    while i < artists.len()
        invariant
            i <= artists@.len(),
            r@ == artists_joined(artists@.take(i as int)),
        decreases artists@.len() - i,
    {
        if i > 0 {
            r.append(", ");
        }
        r.append(artists[i].as_str());
        proof {
            let s = artists@.take(i as int + 1);
            assert(s.drop_last() =~= artists@.take(i as int));
            assert(s.last() == artists@[i as int]);
        }
        i += 1;
    }
    proof {
        assert(artists@.take(artists@.len() as int) =~= artists@);
    }
    r
}

/// Whether the characters of `pat` stand in `s` beginning at index `i`.
fn has_prefix_at(s: &str, i: usize, pat: &str) -> (b: bool)
    requires
        i <= s@.len(),
    ensures
        b == (i + pat@.len() <= s@.len() && s@.subrange(
            i as int,
            i as int + pat@.len() as int,
        ) == pat@),
{
    let n = s.unicode_len();
    let m = pat.unicode_len();
    if m > n - i {
        return false;
    }
    let mut j: usize = 0;
    while j < m
        invariant
            i + m <= n,
            n == s@.len(),
            m == pat@.len(),
            j <= m,
            forall|k: int| 0 <= k < j ==> s@[i + k] == pat@[k],
        decreases m - j,
    {
        if s.get_char(i + j) != pat.get_char(j) {
            proof {
                assert(s@.subrange(i as int, i as int + m as int)[j as int] == s@[i + j]);
            }
            return false;
        }
        j += 1;
    }
    proof {
        assert(s@.subrange(i as int, i as int + m as int) =~= pat@);
    }
    true
}

/// Renders the template over the track: every `%artists`, `%album` and
/// `%title` token is replaced, every other character kept.
pub fn render(t: &Track, tpl: &str) -> (r: String)
    ensures
        r@ == rendered(*t, tpl@),
{
    let artists_text = join_artists(&t.artists);
    let album_text = match &t.album {
        Some(a) => a.clone(),
        None => String::new(),
    };
    let n = tpl.unicode_len();
    let mut out = String::new();
    let mut i: usize = 0;
    proof {
        assert(tpl@.skip(0) =~= tpl@);
        assert(Seq::<char>::empty() + rendered(*t, tpl@) =~= rendered(*t, tpl@));
    }
    while i < n
        invariant
            i <= n,
            n == tpl@.len(),
            artists_text@ == artists_joined(t.artists@),
            album_text@ == album_or_empty(*t),
            out@ + rendered(*t, tpl@.skip(i as int)) == rendered(*t, tpl@),
        decreases n - i,
    {
        proof {
            reveal_strlit("%artists");
            reveal_strlit("%album");
            reveal_strlit("%title");
        }
        let ghost rest = tpl@.skip(i as int);
        if has_prefix_at(tpl, i, "%artists") {
            proof {
                assert(rest.subrange(0, 8) =~= tpl@.subrange(i as int, i as int + 8));
                assert(rest.skip(8) =~= tpl@.skip(i as int + 8));
            }
            out.append(artists_text.as_str());
            i = i + 8;
        } else if has_prefix_at(tpl, i, "%album") {
            proof {
                if i + 8 <= n {
                    assert(rest.subrange(0, 8) =~= tpl@.subrange(i as int, i as int + 8));
                }
                assert(rest.subrange(0, 6) =~= tpl@.subrange(i as int, i as int + 6));
                assert(rest.skip(6) =~= tpl@.skip(i as int + 6));
            }
            out.append(album_text.as_str());
            i = i + 6;
        } else if has_prefix_at(tpl, i, "%title") {
            proof {
                if i + 8 <= n {
                    assert(rest.subrange(0, 8) =~= tpl@.subrange(i as int, i as int + 8));
                }
                assert(rest.subrange(0, 6) =~= tpl@.subrange(i as int, i as int + 6));
                assert(rest.skip(6) =~= tpl@.skip(i as int + 6));
            }
            out.append(t.title.as_str());
            i = i + 6;
        } else {
            proof {
                if i + 8 <= n {
                    assert(rest.subrange(0, 8) =~= tpl@.subrange(i as int, i as int + 8));
                }
                if i + 6 <= n {
                    assert(rest.subrange(0, 6) =~= tpl@.subrange(i as int, i as int + 6));
                }
                assert(rest[0] == tpl@[i as int]);
                assert(rest.skip(1) =~= tpl@.skip(i as int + 1));
                assert(tpl@.subrange(i as int, i as int + 1) =~= seq![tpl@[i as int]]);
            }
            let piece = tpl.substring_char(i, i + 1);
            out.append(piece);
            i = i + 1;
        }
    }
    proof {
        assert(tpl@.skip(n as int) =~= Seq::<char>::empty());
    }
    out
}

} // verus!
