//! Messages exchanged with foksal, and the decoding of responses into the
//! client's model.

use vstd::prelude::*;

use crate::client::error::FoksalError;
use crate::client::model::{
    is_big_number, tag_key_name, tag_value_of, Filter, PlaybackState, PlayerState, QueueMode,
    SongMetadata, SortOrder, SubscriptionTarget, TagKey, TagValue, SelectGroup, UniqueGroup,
};
use crate::common::json::{entries_map, is_string_of, map_get, JsonObject, JsonValue};
use vstd::string::StringSliceAdditionalSpecFns;
use vstd::utf8::encode_utf8;

use crate::common::encoding::{base64_decode, base64_decoded};
use crate::text::{is_prefix, push_str, starts_with, str_eq};

verus! {

/// A request sent to foksal.
pub enum Request {
    AddToQueue { uris: Vec<String>, pos: Option<usize> },
    RemoveFromQueue { pos: usize },
    QueueMove { from: usize, to: usize },
    AddAndPlay { uris: Vec<String> },
    Play { pos: usize },
    Pause,
    Resume,
    Toggle,
    Stop,
    Next,
    Prev,
    VolumeChange { delta: i8 },
    VolumeSet { volume: u8 },
    SeekBy { seconds: i64 },
    SeekTo { seconds: u64 },
    QueueSeq,
    QueueLoop,
    QueueRandom,
    QueueSingle,
    QueueClear,
    State,
    Metadata { uris: Vec<String>, tags: Vec<String> },
    Select { filters: Option<Vec<Filter>>, group_by: Option<Vec<String>> },
    Unique { tag: String, group_by: Option<Vec<String>>, sort: Option<SortOrder> },
    CoverArt { uri: String },
    Subscribe { to: SubscriptionTarget },
    Unsubscribe { to: SubscriptionTarget },
}

/// An asynchronous error that might refer to any already sent request.
pub struct AsyncError {
    pub error: String,
    pub reason: String,
}

/// The metadata of one song as sent by foksal: tag name to value.
pub type RawSongMetadata = JsonObject;

/// A raw response to a request.
pub struct RawResponse {
    pub ok: bool,
    pub reason: Option<String>,
    pub token: Option<String>,
    pub current_song: Option<String>,
    pub current_song_id: Option<usize>,
    pub queue_pos: Option<usize>,
    pub queue_mode: Option<QueueMode>,
    pub queue: Option<Vec<String>>,
    pub playback_state: Option<PlaybackState>,
    pub volume: Option<u8>,
    pub elapsed: Option<u64>,
    pub metadata: Option<Vec<Option<RawSongMetadata>>>,
    pub values: Option<JsonValue>,
    pub image: Option<String>,
}

/// The first message of a connection.
pub struct WelcomeMessage {
    pub version: String,
}

/// A message from foksal: an event, an asynchronous error, a response or the
/// welcome message.
pub enum FoksalMessage {
    Event(Event),
    AsyncError(AsyncError),
    Response(RawResponse),
    Welcome(WelcomeMessage),
}

/// An asynchronous event emitted by foksal to all relevant subscribers.
pub enum Event {
    /// Queue contents changed.
    QueueContent { queue: Vec<String> },
    /// Current position in the queue changed.
    QueuePos { pos: Option<usize> },
    /// The queue playback mode changed.
    QueueMode { mode: QueueMode },
    /// A new song started playing.
    CurrentSong { uri: String, id: usize },
    /// Playback state changed.
    PlaybackState { state: PlaybackState },
    /// Volume changed.
    Volume { volume: u8 },
    /// Elapsed seconds in the current song.
    Elapsed { seconds: u64 },
    /// A song was added to the database.
    Create { uri: String },
    /// A song's metadata was modified.
    Modify { uri: String },
    /// A song was removed from the database.
    Remove { uri: String },
}

/// What the client hands to the application besides responses.
pub enum AsyncMessage {
    Event(Event),
    Error(FoksalError),
}

/// A group of a `select` response as sent by foksal.
pub struct RawSelectGroup {
    pub uris: Vec<String>,
    pub tags: JsonObject,
}

/// A group of a `unique` response as sent by foksal.
pub struct RawUniqueGroup {
    pub unique: Vec<JsonValue>,
    pub tags: JsonObject,
}

pub open spec fn unexpected(request: Seq<char>, e: FoksalError) -> bool {
    e matches FoksalError::UnexpectedResponse { request: r } && r@ == request
}

impl RawResponse {
    /// The player state, when every field of a `state` response is there.
    pub fn into_player_state(self) -> (r: Result<PlayerState, FoksalError>)
        ensures
            (self.queue_mode is Some && self.queue is Some && self.playback_state is Some
                && self.volume is Some && self.elapsed is Some) <==> r is Ok,
            r matches Ok(s) ==> {
                &&& s.current_song == self.current_song
                &&& s.current_song_id == self.current_song_id
                &&& s.queue_pos == self.queue_pos
                &&& Some(s.queue_mode) == self.queue_mode
                &&& Some(s.queue) == self.queue
                &&& Some(s.playback_state) == self.playback_state
                &&& Some(s.volume) == self.volume
                &&& Some(s.elapsed) == self.elapsed
            },
            r matches Err(e) ==> unexpected("state"@, e),
    {
        let queue_mode = match self.queue_mode {
            Some(m) => m,
            None => return Err(FoksalError::UnexpectedResponse { request: String::from_str("state") }),
        };
        let queue = match self.queue {
            Some(q) => q,
            None => return Err(FoksalError::UnexpectedResponse { request: String::from_str("state") }),
        };
        let playback_state = match self.playback_state {
            Some(p) => p,
            None => return Err(FoksalError::UnexpectedResponse { request: String::from_str("state") }),
        };
        let volume = match self.volume {
            Some(v) => v,
            None => return Err(FoksalError::UnexpectedResponse { request: String::from_str("state") }),
        };
        let elapsed = match self.elapsed {
            Some(e) => e,
            None => return Err(FoksalError::UnexpectedResponse { request: String::from_str("state") }),
        };
        Ok(PlayerState {
            current_song: self.current_song,
            current_song_id: self.current_song_id,
            queue_pos: self.queue_pos,
            queue_mode,
            queue,
            playback_state,
            volume,
            elapsed,
        })
    }

    /// The response, or the server's refusal with its reason ("unknown error"
    /// when none is given).
    pub fn check_ok(self) -> (r: Result<RawResponse, FoksalError>)
        ensures
            self.ok ==> (r matches Ok(s) && s == self),
            !self.ok ==> (r matches Err(FoksalError::ServerError { reason }) && reason@ == match self.reason {
                Some(t) => t@,
                None => "unknown error"@,
            }),
    {
        if self.ok {
            Ok(self)
        } else {
            Err(FoksalError::ServerError {
                reason: match self.reason {
                    Some(t) => t,
                    None => String::from_str("unknown error"),
                },
            })
        }
    }
}

/// No value among the entries is a number too big for a tag value.
pub open spec fn entries_small(e: Seq<(String, JsonValue)>) -> bool {
    forall|i: int| 0 <= i < e.len() ==> !is_big_number(#[trigger] e[i].1)
}

/// No number among the values of an object is too big for a tag value.
pub open spec fn object_small_numbers(o: JsonObject) -> bool {
    entries_small(o.spec_entries())
}

/// Every key names a tag and every value is a tag value.
pub open spec fn entries_are_tags(e: Seq<(String, JsonValue)>) -> bool {
    forall|i: int|
        0 <= i < e.len() ==> (exists|k: TagKey| tag_key_name(k) == (#[trigger] e[i]).0@) && tag_value_of(e[i].1) is Some
}

/// Every key of the object names a tag and every value is a tag value.
pub open spec fn object_is_tags(o: JsonObject) -> bool {
    entries_are_tags(o.spec_entries())
}

/// The tags of `m` correspond one to one, in order, to the entries `e`.
pub open spec fn entries_match(m: Seq<(TagKey, TagValue)>, e: Seq<(String, JsonValue)>) -> bool {
    &&& m.len() == e.len()
    &&& forall|i: int| 0 <= i < m.len() ==> tag_key_name((#[trigger] m[i]).0) == e[i].0@
        && Some(m[i].1) == tag_value_of(e[i].1)
}

/// The tags of `m` correspond one to one, in order, to the entries of `o`.
pub open spec fn tags_match(m: Seq<(TagKey, TagValue)>, o: JsonObject) -> bool {
    entries_match(m, o.spec_entries())
}

/// Converts the entries of a raw object into tags and tag values; the first
/// entry with an unknown key or an unsupported value makes it fail.
pub fn parse_tags(o: JsonObject) -> (r: Result<SongMetadata, FoksalError>)
    requires
        object_small_numbers(o),
    ensures
        r is Ok <==> object_is_tags(o),
        r matches Ok(m) ==> tags_match(m@, o),
        r matches Err(e) ==> (e is InvalidTagKey || e is InvalidTagValue),
{
    let entries = o.entries();
    let mut out: Vec<(TagKey, TagValue)> = Vec::new();
    let mut i: usize = 0;
    while i < entries.len()
        invariant
            i <= entries.len(),
            entries@ == o.spec_entries(),
            object_small_numbers(o),
            out.len() == i,
            forall|j: int| 0 <= j < i ==> tag_key_name((#[trigger] out@[j]).0) == entries@[j].0@
                && Some(out@[j].1) == tag_value_of(entries@[j].1),
            forall|j: int| 0 <= j < i ==> (exists|k: TagKey| tag_key_name(k) == (#[trigger] entries@[j]).0@)
                && tag_value_of(entries@[j].1) is Some,
        decreases entries.len() - i,
    {
        let key = match TagKey::try_from(entries[i].0.as_str()) {
            Ok(k) => k,
            Err(e) => return Err(e),
        };
        let val = match TagValue::try_from(copy_json(&entries[i].1)) {
            Ok(v) => v,
            Err(e) => return Err(e),
        };
        out.push((key, val));
        i = i + 1;
    }
    Ok(out)
}

/// A copy of a scalar JSON value; arrays and objects become empty ones of the
/// same kind (tag values never hold them).
fn copy_json(v: &JsonValue) -> (r: JsonValue)
    ensures
        tag_value_of(r) == tag_value_of(*v),
        r is Bool <==> v is Bool,
        r is Array <==> v is Array,
        r is Object <==> v is Object,
        is_big_number(r) == is_big_number(*v),
{
    match v {
        JsonValue::Null => JsonValue::Null,
        JsonValue::Bool(b) => JsonValue::Bool(*b),
        JsonValue::Number(n) => JsonValue::Number(*n),
        JsonValue::String(s) => JsonValue::String(s.clone()),
        JsonValue::Array(_) => JsonValue::Array(Vec::new()),
        JsonValue::Object(_) => JsonValue::Object(JsonObject::new()),
    }
}


/// The entries of `e` whose key is not `key`.
pub open spec fn other_entries(e: Seq<(String, JsonValue)>, key: Seq<char>) -> Seq<(String, JsonValue)>
    decreases e.len(),
{
    if e.len() == 0 {
        Seq::empty()
    } else if e.last().0@ != key {
        other_entries(e.drop_last(), key).push(e.last())
    } else {
        other_entries(e.drop_last(), key)
    }
}

/// Splits an object into the value of `key` (its last entry) and the other
/// entries, in order.
fn take_field(o: JsonObject, key: &str) -> (r: (Option<JsonValue>, Vec<(String, JsonValue)>))
    ensures
        r.0 == map_get(o.as_map(), key@),
        r.1@ == other_entries(o.spec_entries(), key@),
{
    let ghost all = o.spec_entries();
    let mut rest = o.into_entries();
    assert(all.len() == rest.len());
    let mut found: Option<JsonValue> = None;
    let mut others: Vec<(String, JsonValue)> = Vec::new();
    let mut i: usize = 0;
    assert(all.take(0) =~= Seq::<(String, JsonValue)>::empty());
    assert(entries_map(all.take(0)) =~= Map::<Seq<char>, JsonValue>::empty());
    while rest.len() > 0
        invariant
            i + rest@.len() == all.len(),
            all.len() <= usize::MAX,
            rest@ == all.skip(i as int),
            found == map_get(entries_map(all.take(i as int)), key@),
            others@ == other_entries(all.take(i as int), key@),
        decreases rest.len(),
    {
        let (k, v) = rest.remove(0);
        assert(all.take(i + 1).drop_last() =~= all.take(i as int));
        assert(all.take(i + 1).last() == all[i as int]);
        assert(all[i as int] == (k, v));
        if str_eq(k.as_str(), key) {
            found = Some(v);
        } else {
            others.push((k, v));
        }
        assert(rest@ =~= all.skip(i + 1));
        i = i + 1;
    }
    assert(all.take(i as int) =~= all);
    (found, others)
}

/// The texts of an array of strings, when every item is a string.
pub open spec fn all_strings(a: Seq<JsonValue>) -> bool {
    forall|i: int| 0 <= i < a.len() ==> (#[trigger] a[i]) is String
}

/// The strings of an array, or nothing when an item is not a string.
fn strings_of(a: Vec<JsonValue>) -> (r: Option<Vec<String>>)
    ensures
        r is Some <==> all_strings(a@),
        r matches Some(v) ==> v.len() == a.len() && forall|i: int| 0 <= i < v.len() ==> is_string_of(a@[i], (#[trigger] v@[i])@),
{
    let ghost all = a@;
    assert(all.len() == a.len());
    let mut rest = a;
    let mut out: Vec<String> = Vec::new();
    let mut i: usize = 0;
    while rest.len() > 0
        invariant
            i + rest@.len() == all.len(),
            all.len() <= usize::MAX,
            all == a@,
            rest@ == all.skip(i as int),
            out.len() == i,
            forall|j: int| 0 <= j < i ==> (#[trigger] all[j]) is String,
            forall|j: int| 0 <= j < i ==> is_string_of(all[j], (#[trigger] out@[j])@),
        decreases rest.len(),
    {
        let x = rest.remove(0);
        assert(x == all[i as int]);
        match x {
            JsonValue::String(t) => out.push(t),
            _ => {
                assert(!(all[i as int] is String));
                return None;
            },
        }
        assert(rest@ =~= all.skip(i + 1));
        i = i + 1;
    }
    Some(out)
}

/// A group of a `select` answer as sent: an object whose `uris` is an array
/// of strings.
pub open spec fn select_group_ok(v: JsonValue) -> bool {
    v matches JsonValue::Object(o) && map_get(o.as_map(), "uris"@) matches Some(JsonValue::Array(a))
        && all_strings(a@)
}

/// `g` is the group sent as `v`: its paths, and the other entries as tags.
pub open spec fn select_group_decoded(g: RawSelectGroup, v: JsonValue) -> bool {
    v matches JsonValue::Object(o) && map_get(o.as_map(), "uris"@) matches Some(JsonValue::Array(a))
        && g.uris.len() == a@.len() && (forall|k: int| 0 <= k < a@.len() ==> is_string_of(a@[k], (#[trigger] g.uris@[k])@))
        && g.tags.spec_entries() == other_entries(o.spec_entries(), "uris"@)
}

/// A group of a `unique` answer as sent: an object whose `unique` is an
/// array.
pub open spec fn unique_group_ok(v: JsonValue) -> bool {
    v matches JsonValue::Object(o) && map_get(o.as_map(), "unique"@) matches Some(JsonValue::Array(_))
}

/// `g` is the group sent as `v`: its values, and the other entries as tags.
pub open spec fn unique_group_decoded(g: RawUniqueGroup, v: JsonValue) -> bool {
    v matches JsonValue::Object(o) && map_get(o.as_map(), "unique"@) matches Some(JsonValue::Array(a))
        && g.unique@ == a@ && g.tags.spec_entries() == other_entries(o.spec_entries(), "unique"@)
}

/// The values of a `select` answer: an array of well-formed groups.
pub open spec fn select_values_ok(v: JsonValue) -> bool {
    match v {
        JsonValue::Array(a) => forall|i: int| 0 <= i < a@.len() ==> select_group_ok(#[trigger] a@[i]),
        _ => false,
    }
}

/// `gs` are the groups sent as `v`, in order.
pub open spec fn select_values_decoded(gs: Seq<RawSelectGroup>, v: JsonValue) -> bool {
    match v {
        JsonValue::Array(a) => gs.len() == a@.len() && forall|i: int|
            0 <= i < gs.len() ==> select_group_decoded(#[trigger] gs[i], a@[i]),
        _ => false,
    }
}

/// The values of a `unique` answer: an array of well-formed groups.
pub open spec fn unique_values_ok(v: JsonValue) -> bool {
    match v {
        JsonValue::Array(a) => forall|i: int| 0 <= i < a@.len() ==> unique_group_ok(#[trigger] a@[i]),
        _ => false,
    }
}

/// `gs` are the groups sent as `v`, in order.
pub open spec fn unique_values_decoded(gs: Seq<RawUniqueGroup>, v: JsonValue) -> bool {
    match v {
        JsonValue::Array(a) => gs.len() == a@.len() && forall|i: int|
            0 <= i < gs.len() ==> unique_group_decoded(#[trigger] gs[i], a@[i]),
        _ => false,
    }
}

fn decode_select_group(v: JsonValue) -> (r: Result<RawSelectGroup, FoksalError>)
    ensures
        r is Ok <==> select_group_ok(v),
        r matches Ok(g) ==> select_group_decoded(g, v),
        r matches Err(e) ==> e is Serialization,
{
    match v {
        JsonValue::Object(o) => {
            let (uris, others) = take_field(o, "uris");
            match uris {
                Some(JsonValue::Array(a)) => match strings_of(a) {
                    Some(u) => Ok(RawSelectGroup { uris: u, tags: JsonObject::from_entries(others) }),
                    None => Err(FoksalError::Serialization(String::from_str("invalid type: expected a string in `uris`"))),
                },
                Some(_) => Err(FoksalError::Serialization(String::from_str("invalid type: expected a sequence for `uris`"))),
                None => Err(FoksalError::Serialization(String::from_str("missing field `uris`"))),
            }
        },
        _ => Err(FoksalError::Serialization(String::from_str("invalid type: expected a map"))),
    }
}

fn decode_unique_group(v: JsonValue) -> (r: Result<RawUniqueGroup, FoksalError>)
    ensures
        r is Ok <==> unique_group_ok(v),
        r matches Ok(g) ==> unique_group_decoded(g, v),
        r matches Err(e) ==> e is Serialization,
{
    match v {
        JsonValue::Object(o) => {
            let (unique, others) = take_field(o, "unique");
            match unique {
                Some(JsonValue::Array(a)) => Ok(RawUniqueGroup { unique: a, tags: JsonObject::from_entries(others) }),
                Some(_) => Err(FoksalError::Serialization(String::from_str("invalid type: expected a sequence for `unique`"))),
                None => Err(FoksalError::Serialization(String::from_str("missing field `unique`"))),
            }
        },
        _ => Err(FoksalError::Serialization(String::from_str("invalid type: expected a map"))),
    }
}

impl RawResponse {
    /// The groups of a `select` answer.
    pub fn into_select_groups(self) -> (r: Result<Vec<RawSelectGroup>, FoksalError>)
        ensures
            self.values is None ==> (r matches Err(e) && unexpected("select"@, e)),
            self.values matches Some(v) ==> (r is Ok <==> select_values_ok(v)),
            r matches Ok(gs) ==> (self.values matches Some(v) && select_values_decoded(gs@, v)),
            self.values is Some ==> (r matches Err(e) ==> e is Serialization),
    {
        let v = match self.values {
            Some(v) => v,
            None => return Err(FoksalError::UnexpectedResponse { request: String::from_str("select") }),
        };
        match v {
            JsonValue::Array(a) => {
                let ghost all = a@;
                assert(all.len() == a.len());
                let mut rest = a;
                let mut out: Vec<RawSelectGroup> = Vec::new();
                let mut i: usize = 0;
                while rest.len() > 0
                    invariant
                        i + rest@.len() == all.len(),
                        all.len() <= usize::MAX,
                        self.values == Some(JsonValue::Array(a)),
                        all == a@,
                        rest@ == all.skip(i as int),
                        out.len() == i,
                        forall|j: int| 0 <= j < i ==> select_group_ok(#[trigger] all[j]),
                        forall|j: int| 0 <= j < i ==> select_group_decoded(#[trigger] out@[j], all[j]),
                    decreases rest.len(),
                {
                    let x = rest.remove(0);
                    assert(x == all[i as int]);
                    match decode_select_group(x) {
                        Ok(g) => out.push(g),
                        Err(e) => {
                            assert(!select_group_ok(a@[i as int]));
                            assert(i < a@.len());
                            assert(!select_values_ok(JsonValue::Array(a)));
                            return Err(e);
                        },
                    }
                    assert(rest@ =~= all.skip(i + 1));
                    i = i + 1;
                }
                assert(select_values_ok(JsonValue::Array(a)));
                assert(select_values_decoded(out@, JsonValue::Array(a)));
                Ok(out)
            },
            _ => Err(FoksalError::Serialization(String::from_str("invalid type: expected a sequence"))),
        }
    }

    /// The groups of a `unique` answer.
    pub fn into_unique_groups(self) -> (r: Result<Vec<RawUniqueGroup>, FoksalError>)
        ensures
            self.values is None ==> (r matches Err(e) && unexpected("unique"@, e)),
            self.values matches Some(v) ==> (r is Ok <==> unique_values_ok(v)),
            r matches Ok(gs) ==> (self.values matches Some(v) && unique_values_decoded(gs@, v)),
            self.values is Some ==> (r matches Err(e) ==> e is Serialization),
    {
        let v = match self.values {
            Some(v) => v,
            None => return Err(FoksalError::UnexpectedResponse { request: String::from_str("unique") }),
        };
        match v {
            JsonValue::Array(a) => {
                let ghost all = a@;
                assert(all.len() == a.len());
                let mut rest = a;
                let mut out: Vec<RawUniqueGroup> = Vec::new();
                let mut i: usize = 0;
                while rest.len() > 0
                    invariant
                        i + rest@.len() == all.len(),
                        all.len() <= usize::MAX,
                        self.values == Some(JsonValue::Array(a)),
                        all == a@,
                        rest@ == all.skip(i as int),
                        out.len() == i,
                        forall|j: int| 0 <= j < i ==> unique_group_ok(#[trigger] all[j]),
                        forall|j: int| 0 <= j < i ==> unique_group_decoded(#[trigger] out@[j], all[j]),
                    decreases rest.len(),
                {
                    let x = rest.remove(0);
                    assert(x == all[i as int]);
                    match decode_unique_group(x) {
                        Ok(g) => out.push(g),
                        Err(e) => {
                            assert(!unique_group_ok(a@[i as int]));
                            assert(i < a@.len());
                            assert(!unique_values_ok(JsonValue::Array(a)));
                            return Err(e);
                        },
                    }
                    assert(rest@ =~= all.skip(i + 1));
                    i = i + 1;
                }
                assert(unique_values_ok(JsonValue::Array(a)));
                assert(unique_values_decoded(out@, JsonValue::Array(a)));
                Ok(out)
            },
            _ => Err(FoksalError::Serialization(String::from_str("invalid type: expected a sequence"))),
        }
    }
}


/// The tag values of the groups of a `select` or `unique` answer are small
/// enough: no value besides the list under `list_key` is a number too big
/// for an `i64`.
pub open spec fn group_tags_small(v: JsonValue, list_key: Seq<char>) -> bool {
    match v {
        JsonValue::Array(a) => forall|i: int|
            0 <= i < a@.len() ==> ((#[trigger] a@[i]) matches JsonValue::Object(o) ==> entries_small(
                other_entries(o.spec_entries(), list_key),
            )),
        _ => true,
    }
}

/// The values listed by the groups of a `unique` answer are small enough.
pub open spec fn unique_values_small(v: JsonValue) -> bool {
    match v {
        JsonValue::Array(a) => forall|i: int|
            0 <= i < a@.len() ==> ((#[trigger] a@[i]) matches JsonValue::Object(o) ==> (map_get(
                o.as_map(),
                "unique"@,
            ) matches Some(JsonValue::Array(u)) ==> forall|k: int| 0 <= k < u@.len() ==> !is_big_number(#[trigger] u@[k]))),
        _ => true,
    }
}

/// The decoded `select` groups: their paths, and their tags that match the
/// other entries of each group sent.
pub open spec fn select_groups_match(gs: Seq<SelectGroup>, v: JsonValue) -> bool {
    match v {
        JsonValue::Array(a) => gs.len() == a@.len() && forall|i: int|
            0 <= i < gs.len() ==> (#[trigger] a@[i] matches JsonValue::Object(o) && map_get(o.as_map(), "uris"@) matches Some(
                JsonValue::Array(u),
            ) && gs[i].uris.len() == u@.len() && (forall|k: int|
                0 <= k < u@.len() ==> is_string_of(u@[k], (#[trigger] gs[i].uris@[k])@)) && entries_match(
                gs[i].tags@,
                other_entries(o.spec_entries(), "uris"@),
            )),
        _ => false,
    }
}

/// Every group sent has tags only.
pub open spec fn select_groups_tags(v: JsonValue) -> bool {
    match v {
        JsonValue::Array(a) => forall|i: int|
            0 <= i < a@.len() ==> ((#[trigger] a@[i]) matches JsonValue::Object(o) && entries_are_tags(
                other_entries(o.spec_entries(), "uris"@),
            )),
        _ => false,
    }
}

/// Converts the raw groups of a `select` answer; a tag that is unknown or a
/// value that is not a tag value makes it fail.
pub fn decode_select(response: RawResponse) -> (r: Result<Vec<SelectGroup>, FoksalError>)
    requires
        response.values matches Some(v) ==> group_tags_small(v, "uris"@),
    ensures
        response.values is None ==> (r matches Err(e) && unexpected("select"@, e)),
        response.values matches Some(v) ==> {
            &&& !select_values_ok(v) ==> (r matches Err(e) && e is Serialization)
            &&& select_values_ok(v) ==> (r is Ok <==> select_groups_tags(v))
            &&& select_values_ok(v) ==> (r matches Err(e) ==> (e is InvalidTagKey || e is InvalidTagValue))
            &&& r matches Ok(gs) ==> select_groups_match(gs@, v)
        },
{
    let ghost values = response.values;
    let groups = match response.into_select_groups() {
        Ok(g) => g,
        Err(e) => return Err(e),
    };
    let ghost v = values.unwrap();
    let ghost a = match v {
        JsonValue::Array(a) => a@,
        _ => Seq::empty(),
    };
    let ghost all = groups@;
    assert(all.len() == groups.len());
    let mut rest = groups;
    let mut out: Vec<SelectGroup> = Vec::new();
    let mut i: usize = 0;
    while rest.len() > 0
        invariant
            values == Some(v),
            values == response.values,
            select_values_ok(v),
            select_values_decoded(all, v),
            group_tags_small(v, "uris"@),
            v matches JsonValue::Array(x) && x@ == a,
            i + rest@.len() == all.len(),
            all.len() <= usize::MAX,
            rest@ == all.skip(i as int),
            out.len() == i,
            forall|j: int|
                0 <= j < i ==> (#[trigger] a[j] matches JsonValue::Object(o) && entries_are_tags(
                    other_entries(o.spec_entries(), "uris"@),
                )),
            forall|j: int|
                0 <= j < i ==> (#[trigger] a[j] matches JsonValue::Object(o) && map_get(o.as_map(), "uris"@) matches Some(
                    JsonValue::Array(u),
                ) && out@[j].uris.len() == u@.len() && (forall|k: int|
                    0 <= k < u@.len() ==> is_string_of(u@[k], (#[trigger] out@[j].uris@[k])@)) && entries_match(
                    out@[j].tags@,
                    other_entries(o.spec_entries(), "uris"@),
                )),
        decreases rest.len(),
    {
        let g = rest.remove(0);
        assert(g == all[i as int]);
        assert(select_group_decoded(g, a[i as int]));
        assert(object_small_numbers(g.tags));
        let tags = match parse_tags(g.tags) {
            Ok(t) => t,
            Err(e) => {
                assert(!select_groups_tags(v));
                return Err(e);
            },
        };
        out.push(SelectGroup { uris: g.uris, tags });
        assert(rest@ =~= all.skip(i + 1));
        i = i + 1;
    }
    Ok(out)
}


/// Every item is a tag value, and none is a number too big for one.
pub open spec fn values_are_tags(u: Seq<JsonValue>) -> bool {
    forall|k: int| 0 <= k < u.len() ==> tag_value_of(#[trigger] u[k]) is Some
}

/// Converts values in order; the first that is not a tag value is refused.
fn parse_values(vals: Vec<JsonValue>) -> (r: Result<Vec<TagValue>, FoksalError>)
    requires
        forall|k: int| 0 <= k < vals@.len() ==> !is_big_number(#[trigger] vals@[k]),
    ensures
        r is Ok <==> values_are_tags(vals@),
        r matches Ok(t) ==> t.len() == vals.len() && forall|k: int|
            0 <= k < t.len() ==> Some(#[trigger] t@[k]) == tag_value_of(vals@[k]),
        r matches Err(e) ==> e is InvalidTagValue,
{
    let ghost all = vals@;
    assert(all.len() == vals.len());
    let mut rest = vals;
    let mut out: Vec<TagValue> = Vec::new();
    let mut i: usize = 0;
    while rest.len() > 0
        invariant
            all == vals@,
            i + rest@.len() == all.len(),
            all.len() <= usize::MAX,
            rest@ == all.skip(i as int),
            forall|k: int| 0 <= k < all.len() ==> !is_big_number(#[trigger] all[k]),
            out.len() == i,
            forall|k: int| 0 <= k < i ==> Some(#[trigger] out@[k]) == tag_value_of(all[k]),
        decreases rest.len(),
    {
        let x = rest.remove(0);
        assert(x == all[i as int]);
        match TagValue::try_from(x) {
            Ok(t) => out.push(t),
            Err(e) => {
                assert(tag_value_of(all[i as int]) is None);
                return Err(e);
            },
        }
        assert(rest@ =~= all.skip(i + 1));
        i = i + 1;
    }
    assert(values_are_tags(all)) by {
        assert forall|k: int| 0 <= k < all.len() implies tag_value_of(#[trigger] all[k]) is Some by {
            assert(Some(out@[k]) == tag_value_of(all[k]));
        }
    }
    Ok(out)
}

/// The decoded `unique` groups: their values, and their tags that match the
/// other entries of each group sent.
pub open spec fn unique_groups_match(gs: Seq<UniqueGroup>, v: JsonValue) -> bool {
    match v {
        JsonValue::Array(a) => gs.len() == a@.len() && forall|i: int|
            0 <= i < gs.len() ==> (#[trigger] a@[i] matches JsonValue::Object(o) && map_get(o.as_map(), "unique"@) matches Some(
                JsonValue::Array(u),
            ) && gs[i].unique.len() == u@.len() && (forall|k: int|
                0 <= k < u@.len() ==> Some(#[trigger] gs[i].unique@[k]) == tag_value_of(u@[k])) && entries_match(
                gs[i].tags@,
                other_entries(o.spec_entries(), "unique"@),
            )),
        _ => false,
    }
}

/// Every group sent has tags only, and lists tag values only.
pub open spec fn unique_groups_tags(v: JsonValue) -> bool {
    match v {
        JsonValue::Array(a) => forall|i: int|
            0 <= i < a@.len() ==> ((#[trigger] a@[i]) matches JsonValue::Object(o) && entries_are_tags(
                other_entries(o.spec_entries(), "unique"@),
            ) && (map_get(o.as_map(), "unique"@) matches Some(JsonValue::Array(u)) && values_are_tags(u@))),
        _ => false,
    }
}

/// Converts the raw groups of a `unique` answer; a tag that is unknown or a
/// value that is not a tag value makes it fail (a group's tags are checked
/// before its values).
pub fn decode_unique(response: RawResponse) -> (r: Result<Vec<UniqueGroup>, FoksalError>)
    requires
        response.values matches Some(v) ==> group_tags_small(v, "unique"@) && unique_values_small(v),
    ensures
        response.values is None ==> (r matches Err(e) && unexpected("unique"@, e)),
        response.values matches Some(v) ==> {
            &&& !unique_values_ok(v) ==> (r matches Err(e) && e is Serialization)
            &&& unique_values_ok(v) ==> (r is Ok <==> unique_groups_tags(v))
            &&& unique_values_ok(v) ==> (r matches Err(e) ==> (e is InvalidTagKey || e is InvalidTagValue))
            &&& r matches Ok(gs) ==> unique_groups_match(gs@, v)
        },
{
    let ghost values = response.values;
    let groups = match response.into_unique_groups() {
        Ok(g) => g,
        Err(e) => return Err(e),
    };
    let ghost v = values.unwrap();
    let ghost a = match v {
        JsonValue::Array(a) => a@,
        _ => Seq::empty(),
    };
    let ghost all = groups@;
    assert(all.len() == groups.len());
    let mut rest = groups;
    let mut out: Vec<UniqueGroup> = Vec::new();
    let mut i: usize = 0;
    while rest.len() > 0
        invariant
            values == Some(v),
            values == response.values,
            unique_values_ok(v),
            unique_values_decoded(all, v),
            group_tags_small(v, "unique"@),
            unique_values_small(v),
            v matches JsonValue::Array(x) && x@ == a,
            i + rest@.len() == all.len(),
            all.len() <= usize::MAX,
            rest@ == all.skip(i as int),
            out.len() == i,
            forall|j: int|
                0 <= j < i ==> (#[trigger] a[j] matches JsonValue::Object(o) && entries_are_tags(
                    other_entries(o.spec_entries(), "unique"@),
                ) && (map_get(o.as_map(), "unique"@) matches Some(JsonValue::Array(u)) && values_are_tags(u@))),
            forall|j: int|
                0 <= j < i ==> (#[trigger] a[j] matches JsonValue::Object(o) && map_get(o.as_map(), "unique"@) matches Some(
                    JsonValue::Array(u),
                ) && out@[j].unique.len() == u@.len() && (forall|k: int|
                    0 <= k < u@.len() ==> Some(#[trigger] out@[j].unique@[k]) == tag_value_of(u@[k])) && entries_match(
                    out@[j].tags@,
                    other_entries(o.spec_entries(), "unique"@),
                )),
        decreases rest.len(),
    {
        let g = rest.remove(0);
        assert(g == all[i as int]);
        assert(unique_group_decoded(g, a[i as int]));
        assert(object_small_numbers(g.tags));
        let unique = parse_values(g.unique);
        let tags = match parse_tags(g.tags) {
            Ok(t) => t,
            Err(e) => {
                assert(!unique_groups_tags(v));
                return Err(e);
            },
        };
        let unique = match unique {
            Ok(u) => u,
            Err(e) => {
                assert(!unique_groups_tags(v));
                return Err(e);
            },
        };
        out.push(UniqueGroup { unique, tags });
        assert(rest@ =~= all.skip(i + 1));
        i = i + 1;
    }
    Ok(out)
}

/// Every song found has tags only, and none of its values is a number too
/// big for a tag value.
pub open spec fn metadata_small(m: Seq<Option<RawSongMetadata>>) -> bool {
    forall|i: int| 0 <= i < m.len() ==> ((#[trigger] m[i]) matches Some(o) ==> object_small_numbers(o))
}

/// The decoded metadata: one entry per song asked for, in order, `None` for
/// songs that were not found.
pub open spec fn metadata_decoded(d: Seq<Option<SongMetadata>>, m: Seq<Option<RawSongMetadata>>) -> bool {
    &&& d.len() == m.len()
    &&& forall|i: int|
        0 <= i < d.len() ==> match (#[trigger] m[i], d[i]) {
            (None, None) => true,
            (Some(o), Some(t)) => tags_match(t@, o),
            _ => false,
        }
}

/// Converts the metadata of a `metadata` answer.
pub fn decode_metadata(response: RawResponse) -> (r: Result<Vec<Option<SongMetadata>>, FoksalError>)
    requires
        response.metadata matches Some(m) ==> metadata_small(m@),
    ensures
        response.metadata is None ==> (r matches Err(e) && unexpected("metadata"@, e)),
        response.metadata matches Some(m) ==> {
            &&& r is Ok <==> forall|i: int| 0 <= i < m@.len() ==> ((#[trigger] m@[i]) matches Some(o) ==> object_is_tags(o))
            &&& r matches Err(e) ==> (e is InvalidTagKey || e is InvalidTagValue)
            &&& r matches Ok(d) ==> metadata_decoded(d@, m@)
        },
{
    let ghost meta = response.metadata;
    let metadata = match response.metadata {
        Some(m) => m,
        None => return Err(FoksalError::UnexpectedResponse { request: String::from_str("metadata") }),
    };
    let ghost all = metadata@;
    assert(all.len() == metadata.len());
    let mut rest = metadata;
    let mut out: Vec<Option<SongMetadata>> = Vec::new();
    let mut i: usize = 0;
    while rest.len() > 0
        invariant
            meta == response.metadata,
            meta matches Some(m) && m@ == all,
            metadata_small(all),
            i + rest@.len() == all.len(),
            all.len() <= usize::MAX,
            rest@ == all.skip(i as int),
            out.len() == i,
            forall|j: int| 0 <= j < i ==> ((#[trigger] all[j]) matches Some(o) ==> object_is_tags(o)),
            metadata_decoded(out@, all.take(i as int)),
        decreases rest.len(),
    {
        let x = rest.remove(0);
        assert(x == all[i as int]);
        let ghost before = out@;
        match x {
            Some(o) => {
                match parse_tags(o) {
                    Ok(t) => out.push(Some(t)),
                    Err(e) => {
                        assert(!object_is_tags(all[i as int]->0));
                        return Err(e);
                    },
                }
            },
            None => out.push(None),
        }
        assert forall|j: int| 0 <= j < i + 1 implies match (#[trigger] all.take(i + 1)[j], out@[j]) {
            (None, None) => true,
            (Some(o), Some(t)) => tags_match(t@, o),
            _ => false,
        } by {
            if j < i {
                assert(all.take(i + 1)[j] == all.take(i as int)[j]);
                assert(out@[j] == before[j]);
            }
        }
        assert(rest@ =~= all.skip(i + 1));
        i = i + 1;
    }
    assert(all.take(i as int) =~= all);
    Ok(out)
}

/// The picture of a `cover_art` answer, decoded from base64; none when the
/// answer holds none.
pub fn decode_cover_art(response: RawResponse) -> (r: Result<Option<Vec<u8>>, FoksalError>)
    ensures
        match response.image {
            None => r matches Ok(None),
            Some(text) => match base64_decoded(text@) {
                Ok(b) => r matches Ok(Some(v)) && v@ == b,
                Err(m) => r matches Err(FoksalError::Base64Decode(t)) && t@ == m,
            },
        },
{
    match response.image {
        Some(encoded) => match base64_decode(encoded.as_str()) {
            Ok(bytes) => Ok(Some(bytes)),
            Err(e) => Err(FoksalError::Base64Decode(e)),
        },
        None => Ok(None),
    }
}

/// The major version that a client of this library expects: `v` and the
/// major number.
pub open spec fn expected_prefix(lib_major: Seq<char>) -> Seq<char> {
    seq!['v'] + lib_major
}

/// Checks the version announced by a welcome message against the library's:
/// it must begin with `v` and the library's major version.
pub fn welcome_error(version: String, lib_version: &str, lib_major: &str) -> (r: Option<FoksalError>)
    ensures
        r is None <==> is_prefix(encode_utf8(expected_prefix(lib_major@)), encode_utf8(version@)),
        r matches Some(e) ==> (e matches FoksalError::VersionMismatch { lib_version: l, instance_version: v }
            && l@ == lib_version@ && v@ == version@),
{
    let mut prefix = String::from_str("v");
    push_str(&mut prefix, lib_major);
    proof {
        reveal_strlit("v");
        assert(prefix@ =~= expected_prefix(lib_major@));
    }
    if starts_with(version.as_str(), prefix.as_str()) {
        None
    } else {
        Some(FoksalError::VersionMismatch { lib_version: String::from_str(lib_version), instance_version: version })
    }
}

/// Checks the first message of a connection: it must be a welcome message
/// with a version of the library's major version.
pub fn accept_welcome(first: Option<FoksalMessage>, lib_version: &str, lib_major: &str) -> (r: Result<(), FoksalError>)
    ensures
        match first {
            Some(FoksalMessage::Welcome(w)) => if is_prefix(
                encode_utf8(expected_prefix(lib_major@)),
                encode_utf8(w.version@),
            ) {
                r is Ok
            } else {
                r matches Err(FoksalError::VersionMismatch { lib_version: l, instance_version: v }) && l@
                    == lib_version@ && v@ == w.version@
            },
            _ => r matches Err(FoksalError::InvalidWelcome),
        },
{
    match first {
        Some(FoksalMessage::Welcome(w)) => match welcome_error(w.version, lib_version, lib_major) {
            Some(e) => Err(e),
            None => Ok(()),
        },
        _ => Err(FoksalError::InvalidWelcome),
    }
}

/// What the reading side of a connection does with a message.
pub enum Route {
    /// Hand the response to the request waiting under this token, if any.
    Reply { token: String, response: RawResponse },
    /// Pass an event or an asynchronous error to the application.
    Notify(AsyncMessage),
    /// Nothing.
    Drop,
}

/// Decides what becomes of a message from foksal: responses go to the
/// request of their token (none without a token), events and asynchronous
/// errors to the application, and a welcome message only when its version
/// does not fit the library's.
pub fn route(msg: FoksalMessage, lib_version: &str, lib_major: &str) -> (r: Route)
    ensures
        match msg {
            FoksalMessage::Response(resp) => match resp.token {
                Some(t) => r matches Route::Reply { token, response } && token@ == t@ && response == resp,
                None => r is Drop,
            },
            FoksalMessage::Event(e) => r == Route::Notify(AsyncMessage::Event(e)),
            FoksalMessage::AsyncError(a) => r matches Route::Notify(AsyncMessage::Error(FoksalError::Async { error, reason }))
                && error == a.error && reason == a.reason,
            FoksalMessage::Welcome(w) => if is_prefix(
                encode_utf8(expected_prefix(lib_major@)),
                encode_utf8(w.version@),
            ) {
                r is Drop
            } else {
                r matches Route::Notify(AsyncMessage::Error(FoksalError::VersionMismatch { lib_version: l, instance_version: v }))
                    && l@ == lib_version@ && v@ == w.version@
            },
        },
{
    match msg {
        FoksalMessage::Response(response) => match &response.token {
            Some(t) => {
                let token = t.clone();
                Route::Reply { token, response }
            },
            None => Route::Drop,
        },
        FoksalMessage::Event(e) => Route::Notify(AsyncMessage::Event(e)),
        FoksalMessage::AsyncError(a) => Route::Notify(AsyncMessage::Error(FoksalError::Async { error: a.error, reason: a.reason })),
        FoksalMessage::Welcome(w) => match welcome_error(w.version, lib_version, lib_major) {
            Some(e) => Route::Notify(AsyncMessage::Error(e)),
            None => Route::Drop,
        },
    }
}

} // verus!
