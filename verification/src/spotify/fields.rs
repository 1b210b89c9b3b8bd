//! Small field rules shared by the payload mappings: artist credits, first
//! images and the request URLs.
use vstd::prelude::*;
use vstd::string::{StringExecFns, StringSliceAdditionalSpecFns};

use crate::spotify::types::{SearchArtist, SpotifyImage};
use crate::text::{concat2, concat3, join, owned};

verus! {

/// The credit shown for an item: its first artist, else "Unknown artist".
pub open spec fn artist_label(artists: Seq<SearchArtist>) -> Seq<char> {
    if artists.len() > 0 { artists[0].name@ } else { "Unknown artist"@ }
}

/// The names of all credited artists.
pub open spec fn artist_names(artists: Seq<SearchArtist>) -> Seq<Seq<char>> {
    artists.map_values(|a: SearchArtist| a.name@)
}

/// The credit shown for a track: all its artists, comma separated.
pub open spec fn joined_artists(artists: Seq<SearchArtist>) -> Seq<char> {
    join(artist_names(artists), ", "@)
}

/// The URL of the first image.
pub open spec fn first_image_url(images: Seq<SpotifyImage>) -> Option<Seq<char>> {
    if images.len() > 0 { Some(images[0].url@) } else { None }
}

/// The first artist's name, else "Unknown artist".
pub fn first_artist_name(artists: &Vec<SearchArtist>) -> (s: String)
    ensures
        s@ == artist_label(artists@),
{
    if artists.len() > 0 { artists[0].name.clone() } else { owned("Unknown artist") }
}

/// All artist names joined by ", ".
pub fn join_artist_names(artists: &Vec<SearchArtist>) -> (s: String)
    ensures
        s@ == joined_artists(artists@),
{
    let mut s = String::new();
    let mut i: usize = 0;
    while i < artists.len()
        invariant
            i <= artists.len(),
            s@ == join(artist_names(artists@).take(i as int), ", "@),
        decreases artists.len() - i,
    {
        let ghost names = artist_names(artists@);
        assert(names.take(i + 1).drop_last() =~= names.take(i as int));
        assert(names.take(i + 1).last() == artists@[i as int].name@);
        if i > 0 {
            s.append(", ");
        } else {
            assert(names.take(1) =~= seq![artists@[0].name@]);
            assert(s@ =~= Seq::<char>::empty());
        }
        s.append(artists[i].name.as_str());
        i += 1;
    }
    assert(artist_names(artists@).take(artists@.len() as int) =~= artist_names(artists@));
    s
}

/// The URL of the first image, if any.
pub fn first_url(images: &Vec<SpotifyImage>) -> (u: Option<String>)
    ensures
        match u {
            Some(x) => first_image_url(images@) == Some(x@),
            None => first_image_url(images@) is None,
        },
{
    if images.len() > 0 { Some(images[0].url.clone()) } else { None }
}

// ------------------------------------------------------------ URL encoding
/// Whether a byte passes through URL encoding unchanged: ASCII letters,
/// digits and `-`, `.`, `_`, `~`.
pub open spec fn url_safe_byte(b: u8) -> bool {
    (48 <= b <= 57) || (65 <= b <= 90) || (97 <= b <= 122) || b == 45 || b == 46 || b == 95 || b == 126
}

/// The upper-case hexadecimal digit for `d < 16`.
pub open spec fn hex_upper(d: u8) -> char {
    if d < 10 { ((48 + d) as u8) as char } else { ((55 + d) as u8) as char }
}

/// Percent-encoding of a byte string: safe bytes as themselves, every other
/// byte as `%` and two upper-case hex digits.
pub open spec fn url_encoded(bytes: Seq<u8>) -> Seq<char>
    decreases bytes.len(),
{
    if bytes.len() == 0 {
        Seq::empty()
    } else {
        let b = bytes.last();
        url_encoded(bytes.drop_last()) + if url_safe_byte(b) {
            seq![b as char]
        } else {
            seq!['%', hex_upper(b / 16), hex_upper(b % 16)]
        }
    }
}

/// `urlencoding::encode`: percent-encodes every byte of the UTF-8 form of `s`
/// except ASCII letters, digits and `-`, `.`, `_`, `~`, with upper-case hex
/// digits (as the crate's `encode_into` and `to_hex_digit` do).
#[verifier::external_body]
fn url_encode(s: &str) -> (out: String)
    ensures
        out@ == url_encoded(s.spec_bytes()),
{
    urlencoding::encode(s).into_owned()
}

/// `prefix`, then `id` percent-encoded, then `suffix`.
pub fn api_url(prefix: &str, id: &str, suffix: &str) -> (url: String)
    ensures
        url@ == prefix@ + url_encoded(id.spec_bytes()) + suffix@,
{
    let enc = url_encode(id);
    concat3(prefix, enc.as_str(), suffix)
}

/// The URI that names a track for playback.
pub fn track_uri(track_id: &str) -> (uri: String)
    ensures
        uri@ == "spotify:track:"@ + track_id@,
{
    concat2("spotify:track:", track_id)
}

/// The player command URL for `command` (`pause`, `next`, `previous`).
pub fn player_command_url(command: &str) -> (url: String)
    ensures
        url@ == "https://api.spotify.com/v1/me/player/"@ + command@,
{
    concat2("https://api.spotify.com/v1/me/player/", command)
}

/// Whether a response status counts as done for a player command: any 2xx,
/// including 204 No Content.
pub fn command_succeeded(status: u16) -> (ok: bool)
    ensures
        ok == ((200 <= status < 300) || status == 204),
{
    (200 <= status && status < 300) || status == 204
}

/// `limit` kept within `lo..=hi` (`usize::clamp`).
pub fn clamp_limit(limit: usize, lo: usize, hi: usize) -> (out: usize)
    requires
        lo <= hi,
    ensures
        out == if limit < lo { lo } else if limit > hi { hi } else { limit },
{
    if limit < lo { lo } else if limit > hi { hi } else { limit }
}

} // verus!
