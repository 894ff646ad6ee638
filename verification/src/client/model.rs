//! The client's data model: player state, tag keys and values, and the
//! groups returned by `select` and `unique`.

use vstd::prelude::*;

use crate::client::error::FoksalError;
use crate::common::json::JsonValue;
use crate::text::str_eq;

verus! {

/// Playback state of the player.
#[derive(Debug, Clone, Copy, PartialEq, Eq, Hash, Structural)]
pub enum PlaybackState {
    Stopped,
    Playing,
    Paused,
}

/// How the queue picks the next song.
#[derive(Debug, Clone, Copy, PartialEq, Eq, Hash, Structural)]
pub enum QueueMode {
    /// Songs come one after another in order of the queue.
    Sequential,
    /// The played song will repeat indefinitely until it's manually changed.
    Loop,
    /// Songs after and including the current one are added to a pool.
    /// When the next song is requested, foksal will select one randomly from the pool.
    /// Whenever the pool empties out, it's re-initialized with all of the enqueued songs.
    Random,
    /// The playback will end after the current song finishes.
    Single,
}

/// Subscription targets for events.
#[derive(Debug, Clone, Copy, PartialEq, Eq, Hash, Structural)]
pub enum SubscriptionTarget {
    Queue,
    Sink,
    Update,
}

/// Sorting order for `unique` requests.
#[derive(Debug, Clone, Copy, PartialEq, Eq, Hash, Structural)]
pub enum SortOrder {
    Ascending,
    Descending,
}

/// Available tag keys.
#[derive(Debug, Clone, Copy, PartialEq, Eq, Hash, Structural)]
pub enum TagKey {
    Album,
    AlbumArtist,
    Artist,
    Composer,
    Date,
    DiscNumber,
    Duration,
    FileSize,
    Genre,
    Performer,
    Producer,
    SortAlbum,
    SortAlbumArtist,
    SortArtist,
    SortComposer,
    SortTrackTitle,
    TrackNumber,
    TrackTitle,
}

/// Regex filter used in `select` requests.
pub struct Filter {
    pub tag: TagKey,
    pub regex: String,
}

/// A filter as sent on the wire.
pub struct RawFilter {
    pub tag: String,
    pub regex: String,
}

/// Full player state.
#[derive(Debug)]
pub struct PlayerState {
    pub current_song: Option<String>,
    pub current_song_id: Option<usize>,
    pub queue_pos: Option<usize>,
    pub queue_mode: QueueMode,
    pub queue: Vec<String>,
    pub playback_state: PlaybackState,
    pub volume: u8,
    /// In seconds.
    pub elapsed: u64,
}

/// Valid types for tag values.
#[derive(Debug, Clone, PartialEq, Eq)]
pub enum TagValue {
    Null,
    String(String),
    Number(i64),
}

/// Tag values and other file metadata of a song, one entry per tag.
///
/// All tags have string values, with the exception of `duration` (number of
/// seconds) and `filesize` (number of bytes).
pub type SongMetadata = Vec<(TagKey, TagValue)>;

/// Group of URIs returned by the `select` request.
pub struct SelectGroup {
    /// URIs belonging to this group.
    pub uris: Vec<String>,
    /// Tag values common to this group.
    pub tags: SongMetadata,
}

/// Group of unique values returned by the `unique` request.
pub struct UniqueGroup {
    /// Unique values of the requested tag within this group.
    pub unique: Vec<TagValue>,
    /// Values of the grouping tags.
    pub tags: SongMetadata,
}

/// The name of a playback state on the wire.
pub open spec fn playback_state_name(p: PlaybackState) -> Seq<char> {
    match p {
        PlaybackState::Stopped => "stopped"@,
        PlaybackState::Playing => "playing"@,
        PlaybackState::Paused => "paused"@,
    }
}

impl PlaybackState {
    /// The state's name on the wire.
    pub fn name(&self) -> (r: &'static str)
        ensures
            r@ == playback_state_name(*self),
    {
        match self {
            PlaybackState::Stopped => "stopped",
            PlaybackState::Playing => "playing",
            PlaybackState::Paused => "paused",
        }
    }
}

/// The name of a queue mode on the wire.
pub open spec fn queue_mode_name(m: QueueMode) -> Seq<char> {
    match m {
        QueueMode::Sequential => "sequential"@,
        QueueMode::Loop => "loop"@,
        QueueMode::Random => "random"@,
        QueueMode::Single => "single"@,
    }
}

impl QueueMode {
    /// The mode's name on the wire.
    pub fn name(&self) -> (r: &'static str)
        ensures
            r@ == queue_mode_name(*self),
    {
        match self {
            QueueMode::Sequential => "sequential",
            QueueMode::Loop => "loop",
            QueueMode::Random => "random",
            QueueMode::Single => "single",
        }
    }
}

/// The name of a subscription target on the wire.
pub open spec fn subscription_target_name(t: SubscriptionTarget) -> Seq<char> {
    match t {
        SubscriptionTarget::Queue => "queue"@,
        SubscriptionTarget::Sink => "sink"@,
        SubscriptionTarget::Update => "update"@,
    }
}

impl SubscriptionTarget {
    /// The target's name on the wire.
    pub fn name(&self) -> (r: &'static str)
        ensures
            r@ == subscription_target_name(*self),
    {
        match self {
            SubscriptionTarget::Queue => "queue",
            SubscriptionTarget::Sink => "sink",
            SubscriptionTarget::Update => "update",
        }
    }
}

/// The name of a sorting order on the wire.
pub open spec fn sort_order_name(o: SortOrder) -> Seq<char> {
    match o {
        SortOrder::Ascending => "ascending"@,
        SortOrder::Descending => "descending"@,
    }
}

impl SortOrder {
    /// The order's name on the wire.
    pub fn name(&self) -> (r: &'static str)
        ensures
            r@ == sort_order_name(*self),
    {
        match self {
            SortOrder::Ascending => "ascending",
            SortOrder::Descending => "descending",
        }
    }
}

/// The name of a tag key on the wire.
pub open spec fn tag_key_name(k: TagKey) -> Seq<char> {
    match k {
        TagKey::Album => "album"@,
        TagKey::AlbumArtist => "albumartist"@,
        TagKey::Artist => "artist"@,
        TagKey::Composer => "composer"@,
        TagKey::Date => "date"@,
        TagKey::DiscNumber => "discnumber"@,
        TagKey::Duration => "duration"@,
        TagKey::FileSize => "filesize"@,
        TagKey::Genre => "genre"@,
        TagKey::Performer => "performer"@,
        TagKey::Producer => "producer"@,
        TagKey::SortAlbum => "sortalbum"@,
        TagKey::SortAlbumArtist => "sortalbumartist"@,
        TagKey::SortArtist => "sortartist"@,
        TagKey::SortComposer => "sortcomposer"@,
        TagKey::SortTrackTitle => "sorttracktitle"@,
        TagKey::TrackNumber => "tracknumber"@,
        TagKey::TrackTitle => "tracktitle"@,
    }
}

/// Different keys have different names, so parsing a key's name gives the key
/// back: `TagKey::try_from(k.name())` is `Ok(k)`.
pub proof fn lemma_tag_key_name_injective(a: TagKey, b: TagKey)
    ensures
        tag_key_name(a) == tag_key_name(b) ==> a == b,
{
    reveal_strlit("album");
    reveal_strlit("albumartist");
    reveal_strlit("artist");
    reveal_strlit("composer");
    reveal_strlit("date");
    reveal_strlit("discnumber");
    reveal_strlit("duration");
    reveal_strlit("filesize");
    reveal_strlit("genre");
    reveal_strlit("performer");
    reveal_strlit("producer");
    reveal_strlit("sortalbum");
    reveal_strlit("sortalbumartist");
    reveal_strlit("sortartist");
    reveal_strlit("sortcomposer");
    reveal_strlit("sorttracktitle");
    reveal_strlit("tracknumber");
    reveal_strlit("tracktitle");
    if tag_key_name(a) == tag_key_name(b) {
        assert(tag_key_name(a).len() == tag_key_name(b).len());
        assert(tag_key_name(a)[0] == tag_key_name(b)[0]);
        assert(tag_key_name(a)[1] == tag_key_name(b)[1]);
        assert(tag_key_name(a)[4] == tag_key_name(b)[4]);
    }
}

impl TagKey {
    /// The key's name (its `Display`).
    pub fn name(&self) -> (r: &'static str)
        ensures
            r@ == tag_key_name(*self),
    {
        match *self {
            TagKey::Album => "album",
            TagKey::AlbumArtist => "albumartist",
            TagKey::Artist => "artist",
            TagKey::Composer => "composer",
            TagKey::Date => "date",
            TagKey::DiscNumber => "discnumber",
            TagKey::Duration => "duration",
            TagKey::FileSize => "filesize",
            TagKey::Genre => "genre",
            TagKey::Performer => "performer",
            TagKey::Producer => "producer",
            TagKey::SortAlbum => "sortalbum",
            TagKey::SortAlbumArtist => "sortalbumartist",
            TagKey::SortArtist => "sortartist",
            TagKey::SortComposer => "sortcomposer",
            TagKey::SortTrackTitle => "sorttracktitle",
            TagKey::TrackNumber => "tracknumber",
            TagKey::TrackTitle => "tracktitle",
        }
    }

    /// The key's name as an owned string.
    pub fn to_string(&self) -> (r: String)
        ensures
            r@ == tag_key_name(*self),
    {
        String::from_str(self.name())
    }

    /// The key with the given name.
    pub fn try_from(value: &str) -> (r: Result<TagKey, FoksalError>)
        ensures
            r matches Ok(k) ==> tag_key_name(k) == value@,
            r matches Err(e) ==> (e matches FoksalError::InvalidTagKey(t) && t@ == value@),
            r is Err ==> forall|k: TagKey| tag_key_name(k) != value@,
            forall|k: TagKey| tag_key_name(k) == value@ ==> (r matches Ok(j) && j == k),
    {
        let r = Self::from_name(value);
        proof {
            assert forall|k: TagKey| tag_key_name(k) == value@ implies (r matches Ok(j) && j == k) by {
                if let Ok(j) = r {
                    lemma_tag_key_name_injective(j, k);
                }
            }
        }
        r
    }

    fn from_name(value: &str) -> (r: Result<TagKey, FoksalError>)
        ensures
            r matches Ok(k) ==> tag_key_name(k) == value@,
            r matches Err(e) ==> (e matches FoksalError::InvalidTagKey(t) && t@ == value@),
            r is Err ==> forall|k: TagKey| tag_key_name(k) != value@,
    {
        if str_eq(value, "album") {
            return Ok(TagKey::Album);
        }
        if str_eq(value, "albumartist") {
            return Ok(TagKey::AlbumArtist);
        }
        if str_eq(value, "artist") {
            return Ok(TagKey::Artist);
        }
        if str_eq(value, "composer") {
            return Ok(TagKey::Composer);
        }
        if str_eq(value, "date") {
            return Ok(TagKey::Date);
        }
        if str_eq(value, "discnumber") {
            return Ok(TagKey::DiscNumber);
        }
        if str_eq(value, "duration") {
            return Ok(TagKey::Duration);
        }
        if str_eq(value, "filesize") {
            return Ok(TagKey::FileSize);
        }
        if str_eq(value, "genre") {
            return Ok(TagKey::Genre);
        }
        if str_eq(value, "performer") {
            return Ok(TagKey::Performer);
        }
        if str_eq(value, "producer") {
            return Ok(TagKey::Producer);
        }
        if str_eq(value, "sortalbum") {
            return Ok(TagKey::SortAlbum);
        }
        if str_eq(value, "sortalbumartist") {
            return Ok(TagKey::SortAlbumArtist);
        }
        if str_eq(value, "sortartist") {
            return Ok(TagKey::SortArtist);
        }
        if str_eq(value, "sortcomposer") {
            return Ok(TagKey::SortComposer);
        }
        if str_eq(value, "sorttracktitle") {
            return Ok(TagKey::SortTrackTitle);
        }
        if str_eq(value, "tracknumber") {
            return Ok(TagKey::TrackNumber);
        }
        if str_eq(value, "tracktitle") {
            return Ok(TagKey::TrackTitle);
        }
        Err(FoksalError::InvalidTagKey(value.to_owned()))
    }
}

impl Filter {
    /// The filter as sent on the wire.
    pub fn into_raw(self) -> (r: RawFilter)
        ensures
            r.tag@ == tag_key_name(self.tag),
            r.regex == self.regex,
    {
        RawFilter { tag: self.tag.to_string(), regex: self.regex }
    }
}

/// The tag value a JSON value stands for.
pub open spec fn tag_value_of(v: JsonValue) -> Option<TagValue> {
    match v {
        JsonValue::Null => Some(TagValue::Null),
        JsonValue::String(s) => Some(TagValue::String(s)),
        JsonValue::Number(n) => Some(TagValue::Number(n.value() as i64)),
        _ => None,
    }
}

/// A JSON number that does not fit in an `i64`.
pub open spec fn is_big_number(v: JsonValue) -> bool {
    v matches JsonValue::Number(n) && n.value() > i64::MAX
}

impl TagValue {
    /// Converts a JSON value: null, strings and numbers are tag values;
    /// booleans, arrays and objects are rejected with their kind.
    pub fn try_from(value: JsonValue) -> (r: Result<TagValue, FoksalError>)
        requires
            !is_big_number(value),
        ensures
            match tag_value_of(value) {
                Some(t) => r == Ok::<TagValue, FoksalError>(t),
                None => r matches Err(FoksalError::InvalidTagValue(k)) && k@ == match value {
                    JsonValue::Bool(_) => "bool"@,
                    JsonValue::Array(_) => "array"@,
                    _ => "object"@,
                },
            },
    {
        match value {
            JsonValue::Null => Ok(TagValue::Null),
            JsonValue::String(s) => Ok(TagValue::String(s)),
            JsonValue::Number(n) => match n.as_i64() {
                Some(x) => Ok(TagValue::Number(x)),
                None => Ok(TagValue::Number(0)),
            },
            JsonValue::Bool(_) => Err(FoksalError::InvalidTagValue(String::from_str("bool"))),
            JsonValue::Array(_) => Err(FoksalError::InvalidTagValue(String::from_str("array"))),
            JsonValue::Object(_) => Err(FoksalError::InvalidTagValue(String::from_str("object"))),
        }
    }

    /// Returns unit if `self` is a `null`, or `None` otherwise.
    pub fn as_null(&self) -> (r: Option<()>)
        ensures
            r is Some <==> *self is Null,
    {
        if let TagValue::Null = self {
            Some(())
        } else {
            None
        }
    }

    /// Returns a str reference if `self` is a `String`, or `None` otherwise.
    pub fn as_str(&self) -> (r: Option<&str>)
        ensures
            match *self {
                TagValue::String(s) => r matches Some(t) && t@ == s@,
                _ => r is None,
            },
    {
        if let TagValue::String(s) = self {
            Some(s.as_str())
        } else {
            None
        }
    }

    /// Returns an `i64` if `self` is a `Number`, or `None` otherwise.
    pub fn as_i64(&self) -> (r: Option<i64>)
        ensures
            match *self {
                TagValue::Number(n) => r == Some(n),
                _ => r is None,
            },
    {
        if let TagValue::Number(n) = self {
            Some(*n)
        } else {
            None
        }
    }
}

} // verus!
