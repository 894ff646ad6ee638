//! What the MPRIS interface shows of the player: the state read from a
//! `state` answer, and the metadata of a track read from a `metadata`
//! answer.

use vstd::prelude::*;

use crate::audio::queue::QueueMode;
use crate::audio::sink::SinkState;
use crate::common::json::{map_get, JsonObject, JsonValue};
use crate::text::str_eq;

verus! {

/// The tags fetched for the metadata of a track, in order.
pub open spec fn mpris_tag_names() -> Seq<Seq<char>> {
    seq![
        "album"@,
        "albumartist"@,
        "artist"@,
        "composer"@,
        "discnumber"@,
        "duration"@,
        "genre"@,
        "tracktitle"@,
        "tracknumber"@,
    ]
}

/// The tags fetched for the metadata of a track.
pub fn mpris_tags() -> (r: Vec<String>)
    ensures
        r@.map_values(|s: String| s@) == mpris_tag_names(),
{
    let r = vec![
        String::from_str("album"),
        String::from_str("albumartist"),
        String::from_str("artist"),
        String::from_str("composer"),
        String::from_str("discnumber"),
        String::from_str("duration"),
        String::from_str("genre"),
        String::from_str("tracktitle"),
        String::from_str("tracknumber"),
    ];
    assert(r@.map_values(|s: String| s@) =~= mpris_tag_names());
    r
}

/// The text under `k`, when it is a string.
pub open spec fn text_item(o: JsonObject, k: Seq<char>) -> Option<Seq<char>> {
    match map_get(o.as_map(), k) {
        Some(JsonValue::String(s)) => Some(s@),
        _ => None,
    }
}

/// The number under `k`, when it is one that fits an `i64`.
pub open spec fn int_item(o: JsonObject, k: Seq<char>) -> Option<int> {
    match map_get(o.as_map(), k) {
        Some(JsonValue::Number(n)) => if n.value() <= i64::MAX {
            Some(n.value())
        } else {
            None
        },
        _ => None,
    }
}

/// The number under `k`, when it is one that fits a `u64`.
pub open spec fn nat_item(o: JsonObject, k: Seq<char>) -> Option<int> {
    match map_get(o.as_map(), k) {
        Some(JsonValue::Number(n)) => if n.value() >= 0 {
            Some(n.value())
        } else {
            None
        },
        _ => None,
    }
}

fn text_of(o: &JsonObject, k: &str) -> (r: Option<String>)
    ensures
        match text_item(*o, k@) {
            Some(t) => r matches Some(s) && s@ == t,
            None => r is None,
        },
{
    match o.get(k) {
        Some(v) => match v.as_str() {
            Some(s) => Some(String::from_str(s)),
            None => None,
        },
        None => None,
    }
}

fn int_of(o: &JsonObject, k: &str) -> (r: Option<i64>)
    ensures
        match int_item(*o, k@) {
            Some(n) => r == Some(n as i64),
            None => r is None,
        },
{
    match o.get(k) {
        Some(v) => v.as_i64(),
        None => None,
    }
}

/// The number as an `i32`, cut to its low bits as `as` does.
pub open spec fn low_i32(n: Option<int>) -> Option<i32> {
    match n {
        Some(x) => Some(x as i32),
        None => None,
    }
}

/// The metadata of a track as MPRIS shows it.
pub struct TrackInfo {
    pub track_id: String,
    pub album: Option<String>,
    pub album_artist: Option<String>,
    pub artist: Option<String>,
    pub composer: Option<String>,
    pub disc_number: Option<i32>,
    /// In seconds.
    pub length: Option<i64>,
    pub genre: Option<String>,
    pub title: Option<String>,
    pub track_number: Option<i32>,
}

/// `t` holds the text `v`, or nothing when there is none.
pub open spec fn same_text(t: Option<String>, v: Option<Seq<char>>) -> bool {
    match v {
        Some(x) => t matches Some(s) && s@ == x,
        None => t is None,
    }
}

/// Reads the metadata of a track from one item of a `metadata` answer: the
/// string tags as text, the disc and track numbers and the duration as
/// numbers; an item that is not an object is refused.
pub fn convert_metadata(track_id: String, json: &JsonValue) -> (r: Result<TrackInfo, String>)
    ensures
        match *json {
            JsonValue::Object(o) => r matches Ok(t) && {
                &&& t.track_id == track_id
                &&& same_text(t.album, text_item(o, "album"@))
                &&& same_text(t.album_artist, text_item(o, "albumartist"@))
                &&& same_text(t.artist, text_item(o, "artist"@))
                &&& same_text(t.composer, text_item(o, "composer"@))
                &&& t.disc_number == low_i32(int_item(o, "discnumber"@))
                &&& match int_item(o, "duration"@) {
                    Some(n) => t.length == Some(n as i64),
                    None => t.length is None,
                }
                &&& same_text(t.genre, text_item(o, "genre"@))
                &&& same_text(t.title, text_item(o, "tracktitle"@))
                &&& t.track_number == low_i32(int_item(o, "tracknumber"@))
            },
            _ => r matches Err(m) && m@ == "metadata deserialization"@,
        },
{
    let o = match json.as_object() {
        Some(o) => o,
        None => return Err(String::from_str("metadata deserialization")),
    };
    let disc_number = match int_of(o, "discnumber") {
        Some(n) => Some(#[verifier::truncate] (n as i32)),
        None => None,
    };
    let track_number = match int_of(o, "tracknumber") {
        Some(n) => Some(#[verifier::truncate] (n as i32)),
        None => None,
    };
    Ok(TrackInfo {
        track_id,
        album: text_of(o, "album"),
        album_artist: text_of(o, "albumartist"),
        artist: text_of(o, "artist"),
        composer: text_of(o, "composer"),
        disc_number,
        length: int_of(o, "duration"),
        genre: text_of(o, "genre"),
        title: text_of(o, "tracktitle"),
        track_number,
    })
}

/// The song that is playing and its id, when the state names both.
pub fn current_track(state: &JsonObject) -> (r: Option<(String, u64)>)
    ensures
        match (text_item(*state, "current_song"@), nat_item(*state, "current_song_id"@)) {
            (Some(u), Some(id)) => r matches Some(p) && p.0@ == u && p.1 == id,
            _ => r is None,
        },
{
    let uri = text_of(state, "current_song");
    let id = match state.get("current_song_id") {
        Some(v) => v.as_u64(),
        None => None,
    };
    match (uri, id) {
        (Some(u), Some(i)) => Some((u, i)),
        _ => None,
    }
}

/// Playback status as MPRIS names it.
#[derive(Clone, Copy, Debug, PartialEq, Eq, Structural)]
pub enum MprisPlayback {
    Playing,
    Paused,
    Stopped,
}

/// Loop status as MPRIS names it.
#[derive(Clone, Copy, Debug, PartialEq, Eq, Structural)]
pub enum MprisLoop {
    /// No repetition.
    Off,
    Track,
    Playlist,
}

/// The playback status named by a player state.
pub open spec fn playback_of_name(s: Seq<char>) -> Option<MprisPlayback> {
    if s == "playing"@ {
        Some(MprisPlayback::Playing)
    } else if s == "paused"@ {
        Some(MprisPlayback::Paused)
    } else if s == "stopped"@ {
        Some(MprisPlayback::Stopped)
    } else {
        None
    }
}

/// The playback status of a `state` answer; it must be given as text, and
/// only the three states are ever given.
pub fn playback_status(state: &JsonObject) -> (r: Result<MprisPlayback, String>)
    requires
        text_item(*state, "playback_state"@) matches Some(s) ==> playback_of_name(s) is Some,
    ensures
        match text_item(*state, "playback_state"@) {
            Some(s) => r == Ok::<MprisPlayback, String>(playback_of_name(s).unwrap()),
            None => r matches Err(m) && m@ == "playback_status deserialization"@,
        },
{
    let s = match text_of(state, "playback_state") {
        Some(s) => s,
        None => return Err(String::from_str("playback_status deserialization")),
    };
    if str_eq(s.as_str(), "playing") {
        Ok(MprisPlayback::Playing)
    } else if str_eq(s.as_str(), "paused") {
        Ok(MprisPlayback::Paused)
    } else {
        Ok(MprisPlayback::Stopped)
    }
}

/// The loop status named by a queue mode.
pub open spec fn loop_of_name(s: Seq<char>) -> Option<MprisLoop> {
    if s == "sequential"@ || s == "random"@ || s == "single"@ {
        Some(MprisLoop::Off)
    } else if s == "loop"@ {
        Some(MprisLoop::Track)
    } else {
        None
    }
}

/// The loop status of a `state` answer; the queue mode must be given as
/// text, and only the known modes are ever given.
pub fn loop_status(state: &JsonObject) -> (r: Result<MprisLoop, String>)
    requires
        text_item(*state, "queue_mode"@) matches Some(s) ==> loop_of_name(s) is Some,
    ensures
        match text_item(*state, "queue_mode"@) {
            Some(s) => r == Ok::<MprisLoop, String>(loop_of_name(s).unwrap()),
            None => r matches Err(m) && m@ == "loop_status deserialization"@,
        },
{
    let s = match text_of(state, "queue_mode") {
        Some(s) => s,
        None => return Err(String::from_str("loop_status deserialization")),
    };
    proof {
        reveal_strlit("loop");
        reveal_strlit("sequential");
        reveal_strlit("random");
        reveal_strlit("single");
        assert("loop"@.len() == 4 && "sequential"@.len() == 10 && "random"@.len() == 6 && "single"@.len() == 6);
    }
    if str_eq(s.as_str(), "loop") {
        Ok(MprisLoop::Track)
    } else {
        Ok(MprisLoop::Off)
    }
}

/// Whether a `state` answer says the queue plays in random order.
pub fn shuffle(state: &JsonObject) -> (r: Result<bool, String>)
    ensures
        match text_item(*state, "queue_mode"@) {
            Some(s) => r == Ok::<bool, String>(s == "random"@),
            None => r matches Err(m) && m@ == "loop_status deserialization"@,
        },
{
    match text_of(state, "queue_mode") {
        Some(s) => Ok(str_eq(s.as_str(), "random")),
        None => Err(String::from_str("loop_status deserialization")),
    }
}

/// The volume (out of 100) of a `state` answer.
pub fn volume_percent(state: &JsonObject) -> (r: Result<i64, String>)
    ensures
        match int_item(*state, "volume"@) {
            Some(n) => r == Ok::<i64, String>(n as i64),
            None => r matches Err(m) && m@ == "volume deserialization"@,
        },
{
    match int_of(state, "volume") {
        Some(n) => Ok(n),
        None => Err(String::from_str("volume deserialization")),
    }
}

/// The elapsed seconds of a `state` answer.
pub fn position_secs(state: &JsonObject) -> (r: Result<i64, String>)
    ensures
        match int_item(*state, "elapsed"@) {
            Some(n) => r == Ok::<i64, String>(n as i64),
            None => r matches Err(m) && m@ == "position deserialization"@,
        },
{
    match int_of(state, "elapsed") {
        Some(n) => Ok(n),
        None => Err(String::from_str("position deserialization")),
    }
}

/// The shuffle flag and loop status shown for a queue mode.
pub fn mode_properties(mode: QueueMode) -> (r: (bool, MprisLoop))
    ensures
        r == match mode {
            QueueMode::Sequential => (false, MprisLoop::Off),
            QueueMode::Loop => (false, MprisLoop::Track),
            QueueMode::Random => (true, MprisLoop::Off),
            QueueMode::Single => (false, MprisLoop::Off),
        },
{
    match mode {
        QueueMode::Sequential => (false, MprisLoop::Off),
        QueueMode::Loop => (false, MprisLoop::Track),
        QueueMode::Random => (true, MprisLoop::Off),
        QueueMode::Single => (false, MprisLoop::Off),
    }
}

/// The playback status shown for a state of the sink.
pub fn playback_property(state: SinkState) -> (r: MprisPlayback)
    ensures
        r == match state {
            SinkState::Stopped => MprisPlayback::Stopped,
            SinkState::Paused => MprisPlayback::Paused,
            SinkState::Playing => MprisPlayback::Playing,
        },
{
    match state {
        SinkState::Stopped => MprisPlayback::Stopped,
        SinkState::Paused => MprisPlayback::Paused,
        _ => MprisPlayback::Playing,
    }
}

} // verus!
