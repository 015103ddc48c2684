//! Deterministic rendering of a sequence of tracks as the text the client
//! prints: one fixed-format block per track, in input order, each closed by
//! a divider line. The library builds the full text; writing it to the
//! terminal is the caller's business.

use vstd::prelude::*;

use crate::model::{Artist, ArtistV, Track, TrackV};

verus! {

/// The digit character of one decimal digit.
pub open spec fn spec_digit(d: int) -> Seq<char> {
    if d == 0 {
        "0"@
    } else if d == 1 {
        "1"@
    } else if d == 2 {
        "2"@
    } else if d == 3 {
        "3"@
    } else if d == 4 {
        "4"@
    } else if d == 5 {
        "5"@
    } else if d == 6 {
        "6"@
    } else if d == 7 {
        "7"@
    } else if d == 8 {
        "8"@
    } else {
        "9"@
    }
}

/// The plain decimal rendering of a non-negative integer: no sign, no
/// leading zeros (a single zero for 0).
pub open spec fn spec_decimal(n: nat) -> Seq<char>
    decreases n,
{
    if n < 10 {
        spec_digit(n as int)
    } else {
        spec_decimal(n / 10) + spec_digit((n % 10) as int)
    }
}

/// The artist line of a block: every artist name of the album, in album
/// order, run together with no separator between names.
pub open spec fn spec_artist_line(artists: Seq<ArtistV>) -> Seq<char>
    decreases artists.len(),
{
    if artists.len() == 0 {
        Seq::empty()
    } else {
        spec_artist_line(artists.drop_last()) + artists.last().name
    }
}

/// The rendered block of one track: its six lines, each ended by a newline.
pub open spec fn spec_block(t: TrackV) -> Seq<char> {
    "Track: "@ + t.name + " from the album "@ + t.album.name + "\n"@ + spec_artist_line(
        t.album.artists,
    ) + "\n"@ + "Spotify URL: "@ + t.external_urls.spotify + "\n"@ + "Popularity: "@
        + spec_decimal(t.popularity as nat) + "\n"@ + "Preview URL: "@ + t.href + "\n"@
        + " --------------------------------------------- \n"@
}

/// The full rendering of a track sequence: the blocks in input order, and
/// nothing at all for an empty sequence.
pub open spec fn spec_render(tracks: Seq<TrackV>) -> Seq<char>
    decreases tracks.len(),
{
    if tracks.len() == 0 {
        Seq::empty()
    } else {
        spec_render(tracks.drop_last()) + spec_block(tracks.last())
    }
}

/// The views of a vector of tracks, in order.
pub open spec fn track_views(tracks: Seq<Track>) -> Seq<TrackV> {
    tracks.map_values(|t: Track| t@)
}

/// The digit character of `d` as a string slice.
fn digit_str(d: u32) -> (s: &'static str)
    requires
        d < 10,
    ensures
        s@ == spec_digit(d as int),
{
    match d {
        0 => "0",
        1 => "1",
        2 => "2",
        3 => "3",
        4 => "4",
        5 => "5",
        6 => "6",
        7 => "7",
        8 => "8",
        _ => "9",
    }
}

/// Append the plain decimal rendering of `n`.
fn append_decimal(out: &mut String, n: u32)
    ensures
        final(out)@ == old(out)@ + spec_decimal(n as nat),
    decreases n,
{
    if n >= 10 {
        append_decimal(out, n / 10);
    }
    let ds = digit_str(n % 10);
    out.append(ds);
    proof {
        if n >= 10 {
            assert((old(out)@ + spec_decimal((n / 10) as nat)) + spec_digit((n % 10) as int)
                =~= old(out)@ + (spec_decimal((n / 10) as nat) + spec_digit((n % 10) as int)));
        }
    }
}

/// Append every artist name of the album, in order, with no separator.
#[verifier::loop_isolation(false)]
fn append_artist_line(out: &mut String, artists: &Vec<Artist>)
    ensures
        final(out)@ == old(out)@ + spec_artist_line(artists@.map_values(|a: Artist| a@)),
{
    let n = artists.len();
    for i in 0..n
        invariant
            n == artists@.len(),
            out@ == old(out)@ + spec_artist_line(artists@.take(i as int).map_values(|a: Artist| a@)),
    {
        out.append(artists[i].name.as_str());
        proof {
            let f = |a: Artist| a@;
            let m1 = artists@.take(i as int + 1).map_values(f);
            assert(m1.drop_last() =~= artists@.take(i as int).map_values(f));
            assert(m1.last() == artists@[i as int]@);
            assert((old(out)@ + spec_artist_line(m1.drop_last())) + artists@[i as int]@.name
                =~= old(out)@ + spec_artist_line(m1));
        }
    }
    proof {
        assert(artists@.take(n as int) =~= artists@);
    }
}

/// Append the rendered block of one track.
fn append_block(out: &mut String, t: &Track)
    ensures
        final(out)@ == old(out)@ + spec_block(t@),
{
    out.append("Track: ");
    out.append(t.name.as_str());
    out.append(" from the album ");
    out.append(t.album.name.as_str());
    out.append("\n");
    append_artist_line(out, &t.album.artists);
    out.append("\n");
    out.append("Spotify URL: ");
    out.append(t.external_urls.spotify.as_str());
    out.append("\n");
    out.append("Popularity: ");
    append_decimal(out, t.popularity);
    out.append("\n");
    out.append("Preview URL: ");
    out.append(t.href.as_str());
    out.append("\n");
    out.append(" --------------------------------------------- \n");
    proof {
        assert(out@ =~= old(out)@ + spec_block(t@));
    }
}

/// Render a sequence of tracks as text: one block per track, in input
/// order; an empty sequence yields the empty text and no error.
#[verifier::loop_isolation(false)]
pub fn render_tracks(tracks: &Vec<Track>) -> (out: String)
    ensures
        out@ == spec_render(track_views(tracks@)),
{
    let mut out = String::new();
    let n = tracks.len();
    for i in 0..n
        invariant
            n == tracks@.len(),
            out@ == spec_render(track_views(tracks@.take(i as int))),
    {
        append_block(&mut out, &tracks[i]);
        proof {
            let m1 = track_views(tracks@.take(i as int + 1));
            assert(m1.drop_last() =~= track_views(tracks@.take(i as int)));
            assert(m1.last() == tracks@[i as int]@);
        }
    }
    proof {
        assert(tracks@.take(n as int) =~= tracks@);
    }
    out
}

/// The blocks a track sequence renders to, one per track, in order.
pub open spec fn spec_blocks(tracks: Seq<TrackV>) -> Seq<Seq<char>> {
    tracks.map_values(|t: TrackV| spec_block(t))
}

/// Law: the rendering of any track sequence is exactly the concatenation
/// of one block per track, in input order — as many blocks as tracks, the
/// i-th block built verbatim from the fields of the i-th track.
pub proof fn lemma_render_is_block_concat(tracks: Seq<TrackV>)
    ensures
        spec_blocks(tracks).len() == tracks.len(),
        forall|i: int| 0 <= i < tracks.len() ==> spec_blocks(tracks)[i] == spec_block(tracks[i]),
        spec_render(tracks) == spec_blocks(tracks).flatten(),
    decreases tracks.len(),
{
    let bs = spec_blocks(tracks);
    bs.lemma_flatten_and_flatten_alt_are_equivalent();
    if tracks.len() == 0 {
        assert(bs.flatten_alt() == Seq::<char>::empty());
    } else {
        let dl = tracks.drop_last();
        lemma_render_is_block_concat(dl);
        let bdl = spec_blocks(dl);
        bdl.lemma_flatten_and_flatten_alt_are_equivalent();
        assert(bs.drop_last() =~= bdl);
        assert(bs.last() == spec_block(tracks.last()));
        assert(bs.flatten_alt() == bs.drop_last().flatten_alt() + bs.last());
    }
}

/// Law: the artist line of a block is exactly the artist names of the
/// album, in album order, concatenated with nothing between them.
pub proof fn lemma_artist_line_in_order(artists: Seq<ArtistV>)
    ensures
        spec_artist_line(artists) == artists.map_values(|a: ArtistV| a.name).flatten(),
    decreases artists.len(),
{
    let ns = artists.map_values(|a: ArtistV| a.name);
    ns.lemma_flatten_and_flatten_alt_are_equivalent();
    if artists.len() == 0 {
        assert(ns.flatten_alt() == Seq::<char>::empty());
    } else {
        let dl = artists.drop_last();
        lemma_artist_line_in_order(dl);
        let ndl = dl.map_values(|a: ArtistV| a.name);
        ndl.lemma_flatten_and_flatten_alt_are_equivalent();
        assert(ns.drop_last() =~= ndl);
        assert(ns.last() == artists.last().name);
        assert(ns.flatten_alt() == ns.drop_last().flatten_alt() + ns.last());
    }
}

/// Law: an empty track sequence renders to the empty text.
pub proof fn lemma_render_empty()
    ensures
        spec_render(Seq::<TrackV>::empty()) == Seq::<char>::empty(),
{
}

} // verus!
