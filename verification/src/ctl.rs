//! The command-line controller: which request each command sends, and the
//! report printed for `state`.

use vstd::prelude::*;

use crate::client::model::{
    playback_state_name, queue_mode_name, tag_key_name, PlayerState, SongMetadata, TagKey,
    TagValue,
};
use crate::client::protocol::Request;
use crate::common::json::{is_string_of, JsonNumber, JsonObject, JsonValue};

verus! {

/// A command of the controller.
pub enum Command {
    /// Add songs to the end of the playback queue.
    Add { uris: Vec<String> },
    /// Start playing the song at a queue position (0-indexed).
    Play { pos: usize },
    /// Add songs to the end of the queue and play them immediately.
    AddPlay { uris: Vec<String> },
    /// Move a song from one queue position to another.
    Move { from: usize, to: usize },
    /// Remove a song from the queue by position (0-indexed).
    Remove { pos: usize },
    Pause,
    Resume,
    Toggle,
    Stop,
    Next,
    Prev,
    Sequential,
    Loop,
    Random,
    Single,
    VolumeChange { delta: i8 },
    VolumeSet { volume: u8 },
    SeekBy { seconds: i64 },
    SeekTo { seconds: u64 },
    /// Clear the playback queue.
    Clear,
    /// Print the player state with the metadata of the queued songs.
    State,
}

/// The request a command sends; `state` sends two (see `report_tags`).
pub fn command_request(cmd: Command) -> (r: Option<Request>)
    ensures
        match cmd {
            Command::Add { uris } => r == Some(Request::AddToQueue { uris, pos: None }),
            Command::Play { pos } => r == Some(Request::Play { pos }),
            Command::AddPlay { uris } => r == Some(Request::AddAndPlay { uris }),
            Command::Move { from, to } => r == Some(Request::QueueMove { from, to }),
            Command::Remove { pos } => r == Some(Request::RemoveFromQueue { pos }),
            Command::Pause => r == Some(Request::Pause),
            Command::Resume => r == Some(Request::Resume),
            Command::Toggle => r == Some(Request::Toggle),
            Command::Stop => r == Some(Request::Stop),
            Command::Next => r == Some(Request::Next),
            Command::Prev => r == Some(Request::Prev),
            Command::Sequential => r == Some(Request::QueueSeq),
            Command::Loop => r == Some(Request::QueueLoop),
            Command::Random => r == Some(Request::QueueRandom),
            Command::Single => r == Some(Request::QueueSingle),
            Command::VolumeChange { delta } => r == Some(Request::VolumeChange { delta }),
            Command::VolumeSet { volume } => r == Some(Request::VolumeSet { volume }),
            Command::SeekBy { seconds } => r == Some(Request::SeekBy { seconds }),
            Command::SeekTo { seconds } => r == Some(Request::SeekTo { seconds }),
            Command::Clear => r == Some(Request::QueueClear),
            Command::State => r is None,
        },
{
    match cmd {
        Command::Add { uris } => Some(Request::AddToQueue { uris, pos: None }),
        Command::Play { pos } => Some(Request::Play { pos }),
        Command::AddPlay { uris } => Some(Request::AddAndPlay { uris }),
        Command::Move { from, to } => Some(Request::QueueMove { from, to }),
        Command::Remove { pos } => Some(Request::RemoveFromQueue { pos }),
        Command::Pause => Some(Request::Pause),
        Command::Resume => Some(Request::Resume),
        Command::Toggle => Some(Request::Toggle),
        Command::Stop => Some(Request::Stop),
        Command::Next => Some(Request::Next),
        Command::Prev => Some(Request::Prev),
        Command::Sequential => Some(Request::QueueSeq),
        Command::Loop => Some(Request::QueueLoop),
        Command::Random => Some(Request::QueueRandom),
        Command::Single => Some(Request::QueueSingle),
        Command::VolumeChange { delta } => Some(Request::VolumeChange { delta }),
        Command::VolumeSet { volume } => Some(Request::VolumeSet { volume }),
        Command::SeekBy { seconds } => Some(Request::SeekBy { seconds }),
        Command::SeekTo { seconds } => Some(Request::SeekTo { seconds }),
        Command::Clear => Some(Request::QueueClear),
        Command::State => None,
    }
}

/// The tags shown for each queued song.
pub open spec fn report_tag_keys() -> Seq<TagKey> {
    seq![TagKey::Artist, TagKey::Album, TagKey::TrackTitle, TagKey::Duration]
}

/// The tags shown for each queued song: artist, album, title and duration.
pub fn report_tags() -> (r: Vec<TagKey>)
    ensures
        r@ == report_tag_keys(),
{
    let r = vec![TagKey::Artist, TagKey::Album, TagKey::TrackTitle, TagKey::Duration];
    assert(r@ =~= report_tag_keys());
    r
}

/// `v` is the JSON of the tag value `t`.
pub open spec fn tag_value_json(v: JsonValue, t: TagValue) -> bool {
    match t {
        TagValue::Null => v is Null,
        TagValue::String(s) => is_string_of(v, s@),
        TagValue::Number(n) => v matches JsonValue::Number(x) && x.value() == n,
    }
}

fn value_json(t: &TagValue) -> (r: JsonValue)
    ensures
        tag_value_json(r, *t),
{
    match t {
        TagValue::Null => JsonValue::Null,
        TagValue::String(s) => JsonValue::String(s.clone()),
        TagValue::Number(n) => JsonValue::Number(JsonNumber::from_i64(*n)),
    }
}

/// `v` is an object with one entry per tag of `m`, in order (none when
/// there is no metadata).
pub open spec fn metadata_report(v: JsonValue, m: Option<Seq<(TagKey, TagValue)>>) -> bool {
    v matches JsonValue::Object(o) && match m {
        None => o.spec_entries().len() == 0,
        Some(d) => o.spec_entries().len() == d.len() && forall|i: int|
            0 <= i < d.len() ==> (#[trigger] o.spec_entries()[i]).0@ == tag_key_name(d[i].0) && tag_value_json(
                o.spec_entries()[i].1,
                d[i].1,
            ),
    }
}

fn metadata_json(m: Option<&SongMetadata>) -> (r: JsonValue)
    ensures
        metadata_report(
            r,
            match m {
                Some(d) => Some(d@),
                None => None,
            },
        ),
{
    let mut o = JsonObject::new();
    match m {
        Some(d) => {
            let mut i: usize = 0;
            while i < d.len()
                invariant
                    i <= d@.len(),
                    o.spec_entries().len() == i,
                    forall|j: int|
                        0 <= j < i ==> (#[trigger] o.spec_entries()[j]).0@ == tag_key_name(d@[j].0) && tag_value_json(
                            o.spec_entries()[j].1,
                            d@[j].1,
                        ),
                decreases d.len() - i,
            {
                o.insert(d[i].0.to_string(), value_json(&d[i].1));
                i = i + 1;
            }
        },
        None => {},
    }
    JsonValue::Object(o)
}

/// The last position below `n` in `queue` that holds `u`, or -1.
pub open spec fn last_position(queue: Seq<String>, n: int, u: Seq<char>) -> int
    decreases n,
{
    if n <= 0 {
        -1
    } else if queue[n - 1]@ == u {
        n - 1
    } else {
        last_position(queue, n - 1, u)
    }
}

proof fn lemma_last_position_range(queue: Seq<String>, n: int, u: Seq<char>)
    ensures
        -1 <= last_position(queue, n, u) < if n > 0 { n } else { 0 },
    decreases n,
{
    if n > 0 && queue[n - 1]@ != u {
        lemma_last_position_range(queue, n - 1, u);
    }
}

fn find_last(queue: &Vec<String>, n: usize, u: &str) -> (r: Option<usize>)
    requires
        n <= queue.len(),
    ensures
        match r {
            Some(j) => j as int == last_position(queue@, n as int, u@),
            None => last_position(queue@, n as int, u@) == -1,
        },
{
    let mut k: usize = n;
    while k > 0
        invariant
            k <= n <= queue.len(),
            last_position(queue@, n as int, u@) == last_position(queue@, k as int, u@),
        decreases k,
    {
        if crate::text::str_eq(queue[k - 1].as_str(), u) {
            return Some(k - 1);
        }
        k = k - 1;
    }
    None
}

/// The metadata shown for the song `u`: that of the last position holding
/// `u` among those that have an answer, when the song was found.
pub open spec fn report_data(queue: Seq<String>, songs: Seq<Option<SongMetadata>>, u: Seq<char>) -> Option<Seq<(TagKey, TagValue)>> {
    let n = if queue.len() < songs.len() { queue.len() as int } else { songs.len() as int };
    let j = last_position(queue, n, u);
    if j >= 0 && songs[j] is Some {
        Some(songs[j]->0@)
    } else {
        None
    }
}

/// Where the metadata shown for the song at position `i` comes from, as the
/// original pairs the queue with the answers and keeps the last answer for
/// each path: among the positions that have an answer, the last one holding
/// the same path as `i` (it is `i` or after it); the song is shown with that
/// position's answer, or with none when that answer is missing.
pub proof fn lemma_report_uses_last_answer(queue: Seq<String>, songs: Seq<Option<SongMetadata>>, i: int)
    requires
        0 <= i < queue.len(),
        i < songs.len(),
    ensures
        exists|j: int|
            #![trigger songs[j]]
            {
                &&& i <= j < queue.len() && j < songs.len()
                &&& queue[j]@ == queue[i]@
                &&& forall|k: int| j < k < queue.len() && k < songs.len() ==> queue[k]@ != queue[i]@
                &&& report_data(queue, songs, queue[i]@) == match songs[j] {
                    Some(d) => Some(d@),
                    None => None::<Seq<(TagKey, TagValue)>>,
                }
            },
{
    let n = if queue.len() < songs.len() { queue.len() as int } else { songs.len() as int };
    lemma_last_position_found(queue, n, queue[i]@, i);
    let j = last_position(queue, n, queue[i]@);
    assert(songs[j] == songs[j]);
}

/// A song that no later position repeats is shown with its own answer.
pub proof fn lemma_report_of_unrepeated_song(queue: Seq<String>, songs: Seq<Option<SongMetadata>>, i: int)
    requires
        0 <= i < queue.len(),
        i < songs.len(),
        forall|k: int| i < k < queue.len() ==> queue[k]@ != queue[i]@,
    ensures
        report_data(queue, songs, queue[i]@) == match songs[i] {
            Some(d) => Some(d@),
            None => None::<Seq<(TagKey, TagValue)>>,
        },
{
    let n = if queue.len() < songs.len() { queue.len() as int } else { songs.len() as int };
    lemma_last_position_found(queue, n, queue[i]@, i);
}

proof fn lemma_last_position_found(queue: Seq<String>, n: int, u: Seq<char>, i: int)
    requires
        0 <= i < n <= queue.len(),
        queue[i]@ == u,
    ensures
        i <= last_position(queue, n, u) < n,
        queue[last_position(queue, n, u)]@ == u,
        forall|k: int| last_position(queue, n, u) < k < n ==> queue[k]@ != u,
    decreases n,
{
    if queue[n - 1]@ != u {
        lemma_last_position_found(queue, n - 1, u, i);
    }
}

/// `v` is the report of one queued song: its path and its metadata.
pub open spec fn queue_item_report(v: JsonValue, u: Seq<char>, m: Option<Seq<(TagKey, TagValue)>>) -> bool {
    v matches JsonValue::Object(o) && {
        let e = o.spec_entries();
        &&& e.len() == 2
        &&& e[0].0@ == "uri"@ && is_string_of(e[0].1, u)
        &&& e[1].0@ == "metadata"@ && metadata_report(e[1].1, m)
    }
}

/// `v` is the JSON of an optional number: the number, or `null`.
pub open spec fn opt_number(v: JsonValue, n: Option<usize>) -> bool {
    match n {
        Some(x) => v matches JsonValue::Number(y) && y.value() == x,
        None => v is Null,
    }
}

/// The report of the player state: its fields, with each queued song shown
/// with the metadata of the last position holding it.
pub open spec fn state_report_matches(v: JsonValue, state: PlayerState, songs: Seq<Option<SongMetadata>>) -> bool {
    v matches JsonValue::Object(o) && {
        let e = o.spec_entries();
        &&& e.len() == 8
        &&& e[0].0@ == "current_song"@ && match state.current_song {
            Some(s) => is_string_of(e[0].1, s@),
            None => e[0].1 is Null,
        }
        &&& e[1].0@ == "current_song_id"@ && opt_number(e[1].1, state.current_song_id)
        &&& e[2].0@ == "queue_pos"@ && opt_number(e[2].1, state.queue_pos)
        &&& e[3].0@ == "queue_mode"@ && is_string_of(e[3].1, queue_mode_name(state.queue_mode))
        &&& e[4].0@ == "queue"@
        &&& e[4].1 matches JsonValue::Array(a) && a@.len() == state.queue@.len() && forall|i: int|
            0 <= i < a@.len() ==> queue_item_report(
                #[trigger] a@[i],
                state.queue@[i]@,
                report_data(state.queue@, songs, state.queue@[i]@),
            )
        &&& e[5].0@ == "playback_state"@ && is_string_of(e[5].1, playback_state_name(state.playback_state))
        &&& e[6].0@ == "volume"@
        &&& e[6].1 matches JsonValue::Number(x) && x.value() == state.volume
        &&& e[7].0@ == "elapsed"@
        &&& e[7].1 matches JsonValue::Number(x) && x.value() == state.elapsed
    }
}

fn opt_number_json(n: Option<usize>) -> (r: JsonValue)
    ensures
        opt_number(r, n),
{
    match n {
        Some(x) => JsonValue::Number(JsonNumber::from_u64(x as u64)),
        None => JsonValue::Null,
    }
}

/// The report printed by `state`: the player state, each queued song with
/// the metadata found for it.
pub fn state_report(state: &PlayerState, songs: &Vec<Option<SongMetadata>>) -> (r: JsonValue)
    ensures
        state_report_matches(r, *state, songs@),
{
    let n = if state.queue.len() < songs.len() { state.queue.len() } else { songs.len() };
    let mut items: Vec<JsonValue> = Vec::new();
    let mut i: usize = 0;
    while i < state.queue.len()
        invariant
            i <= state.queue@.len(),
            n == if state.queue@.len() < songs@.len() { state.queue@.len() } else { songs@.len() },
            items@.len() == i,
            forall|k: int|
                0 <= k < i ==> queue_item_report(
                    #[trigger] items@[k],
                    state.queue@[k]@,
                    report_data(state.queue@, songs@, state.queue@[k]@),
                ),
        decreases state.queue.len() - i,
    {
        let u = state.queue[i].as_str();
        proof {
            lemma_last_position_range(state.queue@, n as int, u@);
        }
        let data = match find_last(&state.queue, n, u) {
            Some(j) => match &songs[j] {
                Some(d) => Some(d),
                None => None,
            },
            None => None,
        };
        let mut o = JsonObject::new();
        o.insert(String::from_str("uri"), JsonValue::String(String::from_str(u)));
        o.insert(String::from_str("metadata"), metadata_json(data));
        items.push(JsonValue::Object(o));
        i = i + 1;
    }
    let current = match &state.current_song {
        Some(s) => JsonValue::String(s.clone()),
        None => JsonValue::Null,
    };
    let mut o = JsonObject::new();
    o.insert(String::from_str("current_song"), current);
    o.insert(String::from_str("current_song_id"), opt_number_json(state.current_song_id));
    o.insert(String::from_str("queue_pos"), opt_number_json(state.queue_pos));
    o.insert(String::from_str("queue_mode"), JsonValue::String(String::from_str(state.queue_mode.name())));
    o.insert(String::from_str("queue"), JsonValue::Array(items));
    o.insert(String::from_str("playback_state"), JsonValue::String(String::from_str(state.playback_state.name())));
    o.insert(String::from_str("volume"), JsonValue::Number(JsonNumber::from_u64(state.volume as u64)));
    o.insert(String::from_str("elapsed"), JsonValue::Number(JsonNumber::from_u64(state.elapsed)));
    JsonValue::Object(o)
}

} // verus!
