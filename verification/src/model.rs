//! The typed shape the client understands of a search response, and the
//! all-or-nothing extraction of that shape from a JSON document.

use vstd::prelude::*;

use crate::json::{obj_get, obj_get_exec, parse_json, json_doc_of, JsonValue};

verus! {

/// The canonical web location of an entity.
pub struct ExternalUrls {
    pub spotify: String,
}

/// One contributor to an album.
pub struct Artist {
    pub name: String,
    pub external_urls: ExternalUrls,
}

/// An album: its display name, its contributors (always one or more), and
/// its canonical web location.
pub struct Album {
    pub name: String,
    pub artists: Vec<Artist>,
    pub external_urls: ExternalUrls,
}

/// One track of the search result.
pub struct Track {
    pub name: String,
    /// The API's own resource locator for the track.
    pub href: String,
    /// Popularity score; the service uses 0 to 100, but no bound is enforced
    /// beyond non-negativity.
    pub popularity: u32,
    pub album: Album,
    pub external_urls: ExternalUrls,
}

/// A page of entities, as the service wraps every result collection.
pub struct Items {
    pub items: Vec<Track>,
}

/// The whole search response the client reads: its track facet.
pub struct APIResponse {
    pub tracks: Items,
}

/// Extraction failed: malformed JSON, a missing required field, or a type
/// mismatch. The caller's only recovery is to abort, so the error carries
/// no detail.
#[derive(Clone, Copy, Debug, PartialEq, Eq, Structural)]
pub struct ParseError;

/// Mathematical image of [`ExternalUrls`].
pub struct ExternalUrlsV {
    pub spotify: Seq<char>,
}

/// Mathematical image of [`Artist`].
pub struct ArtistV {
    pub name: Seq<char>,
    pub external_urls: ExternalUrlsV,
}

/// Mathematical image of [`Album`].
pub struct AlbumV {
    pub name: Seq<char>,
    pub artists: Seq<ArtistV>,
    pub external_urls: ExternalUrlsV,
}

/// Mathematical image of [`Track`].
pub struct TrackV {
    pub name: Seq<char>,
    pub href: Seq<char>,
    pub popularity: u32,
    pub album: AlbumV,
    pub external_urls: ExternalUrlsV,
}

/// Mathematical image of [`Items`].
pub struct ItemsV {
    pub items: Seq<TrackV>,
}

/// Mathematical image of [`APIResponse`].
pub struct APIResponseV {
    pub tracks: ItemsV,
}

impl View for ExternalUrls {
    type V = ExternalUrlsV;

    open spec fn view(&self) -> ExternalUrlsV {
        ExternalUrlsV { spotify: self.spotify@ }
    }
}

impl View for Artist {
    type V = ArtistV;

    open spec fn view(&self) -> ArtistV {
        ArtistV { name: self.name@, external_urls: self.external_urls@ }
    }
}

impl View for Album {
    type V = AlbumV;

    open spec fn view(&self) -> AlbumV {
        AlbumV {
            name: self.name@,
            artists: self.artists@.map_values(|a: Artist| a@),
            external_urls: self.external_urls@,
        }
    }
}

impl View for Track {
    type V = TrackV;

    open spec fn view(&self) -> TrackV {
        TrackV {
            name: self.name@,
            href: self.href@,
            popularity: self.popularity,
            album: self.album@,
            external_urls: self.external_urls@,
        }
    }
}

impl View for Items {
    type V = ItemsV;

    open spec fn view(&self) -> ItemsV {
        ItemsV { items: self.items@.map_values(|t: Track| t@) }
    }
}

impl View for APIResponse {
    type V = APIResponseV;

    open spec fn view(&self) -> APIResponseV {
        APIResponseV { tracks: self.tracks@ }
    }
}

/// The external-urls object a JSON value holds: an object with a string
/// under "spotify". Anything else is rejected.
pub open spec fn spec_urls(v: JsonValue) -> Option<ExternalUrlsV> {
    match v {
        JsonValue::Obj(entries) => match obj_get(entries@, "spotify"@) {
            Some(JsonValue::Str(s)) => Some(ExternalUrlsV { spotify: s@ }),
            _ => None,
        },
        _ => None,
    }
}

/// The artist a JSON value holds: an object with a string "name" and an
/// "external_urls" object.
pub open spec fn spec_artist(v: JsonValue) -> Option<ArtistV> {
    match v {
        JsonValue::Obj(entries) => match (
            obj_get(entries@, "name"@),
            obj_get(entries@, "external_urls"@),
        ) {
            (Some(JsonValue::Str(nm)), Some(u)) => match spec_urls(u) {
                Some(uv) => Some(ArtistV { name: nm@, external_urls: uv }),
                None => None,
            },
            _ => None,
        },
        _ => None,
    }
}

/// Every element of an artists array is a well-formed artist.
pub open spec fn artists_ok(elems: Seq<JsonValue>) -> bool {
    forall|i: int| 0 <= i < elems.len() ==> spec_artist(elems[i]) is Some
}

/// The artists an array of well-formed artist values holds, in array order.
pub open spec fn spec_artist_seq(elems: Seq<JsonValue>) -> Seq<ArtistV> {
    Seq::new(elems.len(), |i: int| spec_artist(elems[i]).unwrap())
}

/// The album a JSON value holds: an object with a string "name", a
/// non-empty "artists" array of well-formed artists, and an
/// "external_urls" object. An empty artists array is a parse anomaly and
/// is rejected.
pub open spec fn spec_album(v: JsonValue) -> Option<AlbumV> {
    match v {
        JsonValue::Obj(entries) => match (
            obj_get(entries@, "name"@),
            obj_get(entries@, "artists"@),
            obj_get(entries@, "external_urls"@),
        ) {
            (Some(JsonValue::Str(nm)), Some(JsonValue::Arr(arts)), Some(u)) => match spec_urls(
                u,
            ) {
                Some(uv) => if arts@.len() > 0 && artists_ok(arts@) {
                    Some(
                        AlbumV {
                            name: nm@,
                            artists: spec_artist_seq(arts@),
                            external_urls: uv,
                        },
                    )
                } else {
                    None
                },
                None => None,
            },
            _ => None,
        },
        _ => None,
    }
}

/// The track a JSON value holds: an object with string "name" and "href",
/// a non-negative integer "popularity" that fits the score type, a
/// well-formed "album", and an "external_urls" object.
pub open spec fn spec_track(v: JsonValue) -> Option<TrackV> {
    match v {
        JsonValue::Obj(entries) => match (
            obj_get(entries@, "name"@),
            obj_get(entries@, "href"@),
            obj_get(entries@, "popularity"@),
            obj_get(entries@, "album"@),
            obj_get(entries@, "external_urls"@),
        ) {
            (
                Some(JsonValue::Str(nm)),
                Some(JsonValue::Str(hr)),
                Some(JsonValue::Int(p)),
                Some(al),
                Some(u),
            ) => match (spec_album(al), spec_urls(u)) {
                (Some(av), Some(uv)) => if p <= u32::MAX as u64 {
                    Some(
                        TrackV {
                            name: nm@,
                            href: hr@,
                            popularity: p as u32,
                            album: av,
                            external_urls: uv,
                        },
                    )
                } else {
                    None
                },
                _ => None,
            },
            _ => None,
        },
        _ => None,
    }
}

/// Every element of a track items array is a well-formed track.
pub open spec fn tracks_ok(elems: Seq<JsonValue>) -> bool {
    forall|i: int| 0 <= i < elems.len() ==> spec_track(elems[i]) is Some
}

/// The tracks an array of well-formed track values holds, in array order.
pub open spec fn spec_track_seq(elems: Seq<JsonValue>) -> Seq<TrackV> {
    Seq::new(elems.len(), |i: int| spec_track(elems[i]).unwrap())
}

/// The search response a JSON document holds: an object whose "tracks"
/// field is an object whose "items" field is an array of well-formed
/// tracks (possibly empty). Anything else is rejected as a unit.
pub open spec fn spec_response(v: JsonValue) -> Option<APIResponseV> {
    match v {
        JsonValue::Obj(entries) => match obj_get(entries@, "tracks"@) {
            Some(JsonValue::Obj(tr)) => match obj_get(tr@, "items"@) {
                Some(JsonValue::Arr(elems)) => if tracks_ok(elems@) {
                    Some(APIResponseV { tracks: ItemsV { items: spec_track_seq(elems@) } })
                } else {
                    None
                },
                _ => None,
            },
            _ => None,
        },
        _ => None,
    }
}

/// Extract the external-urls object a JSON value holds, or reject it.
pub fn extract_urls(v: &JsonValue) -> (r: Result<ExternalUrls, ParseError>)
    ensures
        match r {
            Ok(u) => spec_urls(*v) == Some(u@),
            Err(_) => spec_urls(*v) is None,
        },
{
    match v {
        JsonValue::Obj(entries) => {
            let key = String::from_str("spotify");
            match obj_get_exec(entries, &key) {
                Some(JsonValue::Str(s)) => Ok(ExternalUrls { spotify: s.clone() }),
                _ => Err(ParseError),
            }
        },
        _ => Err(ParseError),
    }
}

/// Extract the artist a JSON value holds, or reject it.
pub fn extract_artist(v: &JsonValue) -> (r: Result<Artist, ParseError>)
    ensures
        match r {
            Ok(a) => spec_artist(*v) == Some(a@),
            Err(_) => spec_artist(*v) is None,
        },
{
    match v {
        JsonValue::Obj(entries) => {
            let name_key = String::from_str("name");
            let urls_key = String::from_str("external_urls");
            match (obj_get_exec(entries, &name_key), obj_get_exec(entries, &urls_key)) {
                (Some(JsonValue::Str(nm)), Some(u)) => match extract_urls(u) {
                    Ok(uv) => Ok(Artist { name: nm.clone(), external_urls: uv }),
                    Err(e) => Err(e),
                },
                _ => Err(ParseError),
            }
        },
        _ => Err(ParseError),
    }
}

/// Extract the album a JSON value holds, or reject it.
#[verifier::loop_isolation(false)]
pub fn extract_album(v: &JsonValue) -> (r: Result<Album, ParseError>)
    ensures
        match r {
            Ok(a) => spec_album(*v) == Some(a@),
            Err(_) => spec_album(*v) is None,
        },
{
    match v {
        JsonValue::Obj(entries) => {
            let name_key = String::from_str("name");
            let artists_key = String::from_str("artists");
            let urls_key = String::from_str("external_urls");
            match (
                obj_get_exec(entries, &name_key),
                obj_get_exec(entries, &artists_key),
                obj_get_exec(entries, &urls_key),
            ) {
                (Some(JsonValue::Str(nm)), Some(JsonValue::Arr(arts)), Some(u)) => {
                    let urls = match extract_urls(u) {
                        Ok(uv) => uv,
                        Err(e) => {
                            return Err(e);
                        },
                    };
                    let n = arts.len();
                    if n == 0 {
                        return Err(ParseError);
                    }
                    let mut artists: Vec<Artist> = Vec::new();
                    for i in 0..n
                        invariant
                            n == arts@.len(),
                            artists@.len() == i,
                            forall|j: int| 0 <= j < i ==> spec_artist(arts@[j]) is Some,
                            forall|j: int|
                                0 <= j < i ==> artists@[j]@ == spec_artist(arts@[j]).unwrap(),
                    {
                        match extract_artist(&arts[i]) {
                            Ok(a) => artists.push(a),
                            Err(e) => {
                                proof {
                                    assert(spec_artist(arts@[i as int]) is None);
                                    assert(!artists_ok(arts@));
                                }
                                return Err(e);
                            },
                        }
                    }
                    proof {
                        assert(artists@.map_values(|a: Artist| a@) =~= spec_artist_seq(arts@));
                    }
                    Ok(Album { name: nm.clone(), artists, external_urls: urls })
                },
                _ => Err(ParseError),
            }
        },
        _ => Err(ParseError),
    }
}

/// Extract the track a JSON value holds, or reject it.
pub fn extract_track(v: &JsonValue) -> (r: Result<Track, ParseError>)
    ensures
        match r {
            Ok(t) => spec_track(*v) == Some(t@),
            Err(_) => spec_track(*v) is None,
        },
{
    match v {
        JsonValue::Obj(entries) => {
            let name_key = String::from_str("name");
            let href_key = String::from_str("href");
            let pop_key = String::from_str("popularity");
            let album_key = String::from_str("album");
            let urls_key = String::from_str("external_urls");
            match (
                obj_get_exec(entries, &name_key),
                obj_get_exec(entries, &href_key),
                obj_get_exec(entries, &pop_key),
                obj_get_exec(entries, &album_key),
                obj_get_exec(entries, &urls_key),
            ) {
                (
                    Some(JsonValue::Str(nm)),
                    Some(JsonValue::Str(hr)),
                    Some(JsonValue::Int(p)),
                    Some(al),
                    Some(u),
                ) => {
                    let album = match extract_album(al) {
                        Ok(a) => a,
                        Err(e) => {
                            return Err(e);
                        },
                    };
                    let urls = match extract_urls(u) {
                        Ok(uv) => uv,
                        Err(e) => {
                            return Err(e);
                        },
                    };
                    if *p <= u32::MAX as u64 {
                        Ok(
                            Track {
                                name: nm.clone(),
                                href: hr.clone(),
                                popularity: *p as u32,
                                album,
                                external_urls: urls,
                            },
                        )
                    } else {
                        Err(ParseError)
                    }
                },
                _ => Err(ParseError),
            }
        },
        _ => Err(ParseError),
    }
}

/// Extract the search response a JSON document holds, or reject it as a
/// unit: on any failure no response value exists at all.
#[verifier::loop_isolation(false)]
pub fn extract_response(v: &JsonValue) -> (r: Result<APIResponse, ParseError>)
    ensures
        match r {
            Ok(resp) => spec_response(*v) == Some(resp@),
            Err(_) => spec_response(*v) is None,
        },
{
    match v {
        JsonValue::Obj(entries) => {
            let tracks_key = String::from_str("tracks");
            match obj_get_exec(entries, &tracks_key) {
                Some(JsonValue::Obj(tr)) => {
                    let items_key = String::from_str("items");
                    match obj_get_exec(tr, &items_key) {
                        Some(JsonValue::Arr(elems)) => {
                            let n = elems.len();
                            let mut tracks: Vec<Track> = Vec::new();
                            for i in 0..n
                                invariant
                                    n == elems@.len(),
                                    tracks@.len() == i,
                                    forall|j: int| 0 <= j < i ==> spec_track(elems@[j]) is Some,
                                    forall|j: int|
                                        0 <= j < i ==> tracks@[j]@ == spec_track(
                                            elems@[j],
                                        ).unwrap(),
                            {
                                match extract_track(&elems[i]) {
                                    Ok(t) => tracks.push(t),
                                    Err(e) => {
                                        proof {
                                            assert(spec_track(elems@[i as int]) is None);
                                            assert(!tracks_ok(elems@));
                                        }
                                        return Err(e);
                                    },
                                }
                            }
                            proof {
                                assert(tracks@.map_values(|t: Track| t@) =~= spec_track_seq(
                                    elems@,
                                ));
                            }
                            Ok(APIResponse { tracks: Items { items: tracks } })
                        },
                        _ => Err(ParseError),
                    }
                },
                _ => Err(ParseError),
            }
        },
        _ => Err(ParseError),
    }
}

/// Parse a response body into the typed shape, all-or-nothing: the result
/// is `Ok` exactly when the bytes are valid JSON holding a well-formed
/// search response, and then the value carries every field of every track;
/// otherwise it is a [`ParseError`] and no partial result exists.
pub fn parse(bytes: &[u8]) -> (r: Result<APIResponse, ParseError>)
    ensures
        match json_doc_of(bytes@) {
            Some(doc) => match spec_response(doc) {
                Some(rv) => r matches Ok(resp) && resp@ == rv,
                None => r is Err,
            },
            None => r is Err,
        },
{
    match parse_json(bytes) {
        Some(doc) => extract_response(&doc),
        None => Err(ParseError),
    }
}

} // verus!
