//! Catalog data carried through the player: artists, albums, tracks, the
//! denormalized [`FullTrack`] that the playback orchestrator queues, and
//! playlists. These records are produced by the external catalog and only
//! borrowed (cloned) into the player; the player never writes them back.

use vstd::prelude::*;
use vstd::string::StringExecFns;

verus! {

/// An artist as stored in the catalog.
#[derive(Debug, PartialEq)]
pub struct Artist {
    pub id: Option<i64>,
    pub name: String,
    pub genre: Option<String>,
}

/// An album as stored in the catalog.
#[derive(Debug, PartialEq)]
pub struct Album {
    pub id: Option<i64>,
    pub artist_id: i64,
    pub title: String,
    pub year: i64,
    pub genre: Option<String>,
    pub album_art: Option<String>,
}

/// A track as stored in the catalog. Immutable once loaded by the player.
#[derive(Debug, PartialEq)]
pub struct Track {
    pub id: Option<i64>,
    pub album_id: i64,
    pub artist_id: i64,
    pub file_path: String,
    pub title: String,
    pub track_number: i64,
    pub disc_number: i64,
    pub bpm: i64,
    pub duration: i64,
    pub initial_key: Option<String>,
    pub isrc: Option<String>,
    pub lyrics: Option<String>,
    pub composer: Option<String>,
}

/// A [`Track`] denormalized with its artist name, album title, album-art
/// reference, and an optional playlist position. This is the unit the
/// playback orchestrator operates on.
#[derive(Debug, PartialEq)]
pub struct FullTrack {
    pub track: Track,
    pub artist_name: String,
    pub album_title: String,
    pub album_art: Option<String>,
    pub playlist_position: Option<i64>,
}

/// A playlist as stored in the catalog.
#[derive(Debug, PartialEq)]
pub struct Playlist {
    pub id: Option<i64>,
    pub name: String,
    pub cover_path: Option<String>,
    pub created_at: i64,
}

/// Clone an optional string; the copy equals the source value.
fn clone_opt_string(o: &Option<String>) -> (r: Option<String>)
    ensures
        r == *o,
{
    match o {
        Some(s) => Some(s.clone()),
        None => None,
    }
}

impl Clone for Artist {
    fn clone(&self) -> (r: Self)
        ensures
            r == *self,
    {
        Artist { id: self.id, name: self.name.clone(), genre: clone_opt_string(&self.genre) }
    }
}

impl Clone for Album {
    fn clone(&self) -> (r: Self)
        ensures
            r == *self,
    {
        Album {
            id: self.id,
            artist_id: self.artist_id,
            title: self.title.clone(),
            year: self.year,
            genre: clone_opt_string(&self.genre),
            album_art: clone_opt_string(&self.album_art),
        }
    }
}

impl Clone for Track {
    fn clone(&self) -> (r: Self)
        ensures
            r == *self,
    {
        Track {
            id: self.id,
            album_id: self.album_id,
            artist_id: self.artist_id,
            file_path: self.file_path.clone(),
            title: self.title.clone(),
            track_number: self.track_number,
            disc_number: self.disc_number,
            bpm: self.bpm,
            duration: self.duration,
            initial_key: clone_opt_string(&self.initial_key),
            isrc: clone_opt_string(&self.isrc),
            lyrics: clone_opt_string(&self.lyrics),
            composer: clone_opt_string(&self.composer),
        }
    }
}

impl Clone for FullTrack {
    fn clone(&self) -> (r: Self)
        ensures
            r == *self,
    {
        FullTrack {
            track: self.track.clone(),
            artist_name: self.artist_name.clone(),
            album_title: self.album_title.clone(),
            album_art: clone_opt_string(&self.album_art),
            playlist_position: self.playlist_position,
        }
    }
}

impl Clone for Playlist {
    fn clone(&self) -> (r: Self)
        ensures
            r == *self,
    {
        Playlist {
            id: self.id,
            name: self.name.clone(),
            cover_path: clone_opt_string(&self.cover_path),
            created_at: self.created_at,
        }
    }
}

/// The decimal digit `d` as a character.
pub open spec fn spec_digit(d: int) -> char {
    if d == 0 {
        '0'
    } else if d == 1 {
        '1'
    } else if d == 2 {
        '2'
    } else if d == 3 {
        '3'
    } else if d == 4 {
        '4'
    } else if d == 5 {
        '5'
    } else if d == 6 {
        '6'
    } else if d == 7 {
        '7'
    } else if d == 8 {
        '8'
    } else {
        '9'
    }
}

/// The decimal rendering of `n`, without leading zeros (except for `n == 0`).
pub open spec fn spec_decimal(n: nat) -> Seq<char>
    decreases n,
{
    if n < 10 {
        seq![spec_digit(n as int)]
    } else {
        spec_decimal(n / 10).push(spec_digit((n % 10) as int))
    }
}

/// The decimal rendering of `n < 100`, zero-padded to exactly two digits.
pub open spec fn spec_two_digits(n: nat) -> Seq<char>
    recommends
        n < 100,
{
    seq![spec_digit((n / 10) as int), spec_digit((n % 10) as int)]
}

/// The human-readable form of a duration given in milliseconds:
/// `M:SS` (minutes unpadded), or `H:MM:SS` once a full hour is reached;
/// zero and negative durations render as `0:00`.
pub open spec fn spec_formatted_duration(duration_ms: int) -> Seq<char> {
    if duration_ms <= 0 {
        seq!['0', ':', '0', '0']
    } else {
        let total_secs = duration_ms / 1000;
        let hours = total_secs / 3600;
        let minutes = (total_secs % 3600) / 60;
        let seconds = total_secs % 60;
        if hours > 0 {
            spec_decimal(hours as nat) + seq![':'] + spec_two_digits(minutes as nat) + seq![':']
                + spec_two_digits(seconds as nat)
        } else {
            spec_decimal(minutes as nat) + seq![':'] + spec_two_digits(seconds as nat)
        }
    }
}

/// Append the single digit `d` to `s`.
fn push_digit(s: &mut String, d: u64)
    requires
        d < 10,
    ensures
        final(s)@ == old(s)@.push(spec_digit(d as int)),
{
    proof {
        reveal_strlit("0");
        reveal_strlit("1");
        reveal_strlit("2");
        reveal_strlit("3");
        reveal_strlit("4");
        reveal_strlit("5");
        reveal_strlit("6");
        reveal_strlit("7");
        reveal_strlit("8");
        reveal_strlit("9");
    }
    if d == 0 {
        s.append("0");
    } else if d == 1 {
        s.append("1");
    } else if d == 2 {
        s.append("2");
    } else if d == 3 {
        s.append("3");
    } else if d == 4 {
        s.append("4");
    } else if d == 5 {
        s.append("5");
    } else if d == 6 {
        s.append("6");
    } else if d == 7 {
        s.append("7");
    } else if d == 8 {
        s.append("8");
    } else {
        s.append("9");
    }
    proof {
        assert(s@ =~= old(s)@.push(spec_digit(d as int)));
    }
}

/// Append the full decimal rendering of `n` to `s`.
fn append_decimal(s: &mut String, n: u64)
    ensures
        final(s)@ == old(s)@ + spec_decimal(n as nat),
    decreases n,
{
    if n < 10 {
        push_digit(s, n);
    } else {
        append_decimal(s, n / 10);
        push_digit(s, n % 10);
    }
    proof {
        assert(s@ =~= old(s)@ + spec_decimal(n as nat));
    }
}

/// Append `n < 100` to `s` as exactly two digits.
fn append_two_digits(s: &mut String, n: u64)
    requires
        n < 100,
    ensures
        final(s)@ == old(s)@ + spec_two_digits(n as nat),
{
    push_digit(s, n / 10);
    push_digit(s, n % 10);
    proof {
        assert(s@ =~= old(s)@ + spec_two_digits(n as nat));
    }
}

/// Append a single `:` separator to `s`.
fn push_colon(s: &mut String)
    ensures
        final(s)@ == old(s)@.push(':'),
{
    proof {
        reveal_strlit(":");
    }
    s.append(":");
    proof {
        assert(s@ =~= old(s)@.push(':'));
    }
}

impl Track {
    /// Format this track's duration (milliseconds) into a human-readable
    /// `M:SS` or `H:MM:SS` string.
    pub fn formatted_duration(&self) -> (r: String)
        ensures
            r@ == spec_formatted_duration(self.duration as int),
    {
        if self.duration <= 0 {
            let r = String::from_str("0:00");
            proof {
                reveal_strlit("0:00");
                assert(r@ =~= seq!['0', ':', '0', '0']);
            }
            return r;
        }
        let total_secs: i64 = self.duration / 1000;
        let hours: u64 = (total_secs / 3600) as u64;
        let minutes: u64 = ((total_secs % 3600) / 60) as u64;
        let seconds: u64 = (total_secs % 60) as u64;
        let mut r = String::new();
        if hours > 0 {
            append_decimal(&mut r, hours);
            push_colon(&mut r);
            append_two_digits(&mut r, minutes);
            push_colon(&mut r);
            append_two_digits(&mut r, seconds);
            proof {
                assert(r@ =~= spec_formatted_duration(self.duration as int));
            }
        } else {
            append_decimal(&mut r, minutes);
            push_colon(&mut r);
            append_two_digits(&mut r, seconds);
            proof {
                assert(r@ =~= spec_formatted_duration(self.duration as int));
            }
        }
        r
    }
}

} // verus!
