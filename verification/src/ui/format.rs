//! The texts the views show for times, counts and album lines.
use vstd::prelude::*;
use vstd::string::StringExecFns;

use crate::messages::Album;
use crate::ui::playback_state::scrub_position_ms;
use crate::text::{decimal, u64_to_decimal, u64_to_decimal_padded, zero_pad};

verus! {

/// `m:ss` for a whole number of seconds.
pub open spec fn min_sec(total_seconds: nat) -> Seq<char> {
    decimal(total_seconds / 60) + ":"@ + zero_pad(decimal(total_seconds % 60), 2)
}

/// A track time, `m:ss` (the milliseconds below a second dropped).
pub fn format_time(ms: u32) -> (s: String)
    ensures
        s@ == min_sec((ms / 1000) as nat),
{
    let total_seconds = ms / 1000;
    let minutes = u64_to_decimal((total_seconds / 60) as u64);
    let seconds = u64_to_decimal_padded((total_seconds % 60) as u64, 2);
    let mut s = minutes;
    s.append(":");
    s.append(seconds.as_str());
    s
}

/// A playlist's length: `h:mm:ss` from an hour on, else `m:ss`.
pub open spec fn playlist_length(ms: nat) -> Seq<char> {
    let total = ms / 1000;
    if total / 3600 > 0 {
        decimal(total / 3600) + ":"@ + zero_pad(decimal((total % 3600) / 60), 2) + ":"@
            + zero_pad(decimal(total % 60), 2)
    } else {
        decimal((total % 3600) / 60) + ":"@ + zero_pad(decimal(total % 60), 2)
    }
}

/// A playlist's length.
pub fn format_playlist_duration(ms: u64) -> (s: String)
    ensures
        s@ == playlist_length(ms as nat),
{
    let total = ms / 1000;
    let hours = total / 3600;
    let minutes = (total % 3600) / 60;
    let seconds = u64_to_decimal_padded(total % 60, 2);
    if hours > 0 {
        let mut s = u64_to_decimal(hours);
        s.append(":");
        let m = u64_to_decimal_padded(minutes, 2);
        s.append(m.as_str());
        s.append(":");
        s.append(seconds.as_str());
        s
    } else {
        let mut s = u64_to_decimal(minutes);
        s.append(":");
        s.append(seconds.as_str());
        s
    }
}

/// A playlist's song count: `1 song`, else `N songs`.
pub fn format_song_count(n: usize) -> (s: String)
    ensures
        s@ == if n == 1 { "1 song"@ } else { decimal(n as nat) + " songs"@ },
{
    if n == 1 {
        return crate::text::owned("1 song");
    }
    let mut s = u64_to_decimal(n as u64);
    s.append(" songs");
    s
}

/// An album's song count: `N songs`.
pub fn format_album_song_count(n: usize) -> (s: String)
    ensures
        s@ == decimal(n as nat) + " songs"@,
{
    let mut s = u64_to_decimal(n as u64);
    s.append(" songs");
    s
}

/// An album's length in whole minutes: `Nm`.
pub fn format_album_minutes(ms: u64) -> (s: String)
    ensures
        s@ == decimal((ms / 60_000) as nat) + "m"@,
{
    let mut s = u64_to_decimal(ms / 60_000);
    s.append("m");
    s
}

/// The second line of an album tile on the artist page: the artist, and
/// the release date where known.
pub fn album_subtitle(album: &Album) -> (s: String)
    ensures
        s@ == match album.release_date {
            Some(d) => album.artist@ + " • "@ + d@,
            None => album.artist@,
        },
{
    match &album.release_date {
        Some(d) => {
            let mut s = album.artist.clone();
            s.append(" • ");
            s.append(d.as_str());
            s
        },
        None => album.artist.clone(),
    }
}

/// The status line for an error: `Error: ` and its message.
pub fn error_status(message: &str) -> (s: String)
    ensures
        s@ == "Error: "@ + message@,
{
    crate::text::concat2("Error: ", message)
}

/// The played and remaining times under the progress bar at a scrub
/// position (in basis points of the track): `m:ss` and `-m:ss`.
pub fn progress_labels(scrub_bp: u32, duration_ms: u32) -> (labels: (String, String))
    requires
        scrub_bp <= 10000,
    ensures
        labels.0@ == min_sec((scrub_position_ms(scrub_bp, duration_ms) / 1000) as nat),
        labels.1@ == "-"@ + min_sec((scrub_position_ms((10000 - scrub_bp) as u32, duration_ms) / 1000) as nat),
{
    assert(scrub_bp as int * duration_ms as int <= 10000 * 0xffff_ffff) by (nonlinear_arith)
        requires scrub_bp <= 10000, duration_ms <= 0xffff_ffff;
    assert((10000 - scrub_bp) as int * duration_ms as int <= 10000 * 0xffff_ffff) by (nonlinear_arith)
        requires scrub_bp <= 10000, duration_ms <= 0xffff_ffff;
    let played: u64 = ((scrub_bp as u64) * (duration_ms as u64) + 5000) / 10000;
    let remaining: u64 = (((10000 - scrub_bp) as u64) * (duration_ms as u64) + 5000) / 10000;
    assert(played <= duration_ms) by (nonlinear_arith)
        requires played == (scrub_bp as int * duration_ms as int + 5000) / 10000, scrub_bp <= 10000;
    assert(remaining <= duration_ms) by (nonlinear_arith)
        requires remaining == ((10000 - scrub_bp) as int * duration_ms as int + 5000) / 10000, scrub_bp <= 10000;
    let a = format_time(played as u32);
    let mut b = String::from_str("-");
    let r = format_time(remaining as u32);
    b.append(r.as_str());
    (a, b)
}

} // verus!
