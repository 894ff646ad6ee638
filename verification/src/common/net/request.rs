//! Requests as the server parts receive them, before their arguments are
//! checked.

use vstd::prelude::*;

verus! {

/// Arguments of database requests.
pub trait RawDbRequestArgs {}

/// Arguments of player requests.
pub trait RawPlayerRequestArgs {}

/// Something a client can subscribe to.
pub trait SubTarget {}

/// Database events a client can subscribe to.
#[derive(Clone, Copy, Debug, PartialEq, Eq, Hash, Structural)]
pub enum DbSubTarget {
    Update,
}

/// Player events a client can subscribe to.
#[derive(Clone, Copy, Debug, PartialEq, Eq, Hash, Structural)]
pub enum PlayerSubTarget {
    Queue,
    Sink,
}

/// A regex filter on a tag, as sent by clients.
pub struct RawFilter {
    pub tag: String,
    pub regex: String,
}

/// Arguments of `metadata`.
pub struct RawMetadataArgs {
    pub uris: Vec<String>,
    pub tags: Vec<String>,
}

/// Arguments of `select`.
pub struct RawSelectArgs {
    pub filters: Option<Vec<RawFilter>>,
    pub group_by: Option<Vec<String>>,
}

/// Arguments of `unique`.
pub struct RawUniqueArgs {
    pub tag: String,
    pub group_by: Option<Vec<String>>,
    pub sort: Option<String>,
}

/// Arguments of `add_to_queue`.
pub struct RawAddToQueueArgs {
    pub uri: String,
    pub pos: Option<usize>,
}

/// Arguments of `queue_move`.
pub struct RawQueueMoveArgs {
    pub from: usize,
    pub to: usize,
}

/// Arguments of `add_and_play`.
pub struct RawAddAndPlayArgs {
    pub uris: Vec<String>,
}

/// Arguments of `remove_from_queue`.
pub struct RawRemoveFromQueueArgs {
    pub pos: usize,
}

/// Arguments of `play`.
pub struct RawPlayArgs {
    pub pos: usize,
}

/// Arguments of `volume`.
pub struct RawVolumeArgs {
    pub delta: i8,
}

/// Arguments of `seek`.
pub struct RawSeekArgs {
    pub seconds: isize,
}

/// A database request.
pub enum RawDbRequest {
    Subscribe(DbSubTarget),
    Unsubscribe(DbSubTarget),
    Metadata(RawMetadataArgs),
    Select(RawSelectArgs),
    Unique(RawUniqueArgs),
}

/// A player request.
pub enum RawPlayerRequest {
    Subscribe(PlayerSubTarget),
    Unsubscribe(PlayerSubTarget),
    AddToQueue(RawAddToQueueArgs),
    RemoveFromQueue(RawRemoveFromQueueArgs),
    QueueMove(RawQueueMoveArgs),
    AddAndPlay(RawAddAndPlayArgs),
    Play(RawPlayArgs),
    Seek(RawSeekArgs),
    Volume(RawVolumeArgs),
    State,
    Pause,
    Resume,
    Toggle,
    Stop,
    Next,
    Prev,
    QueueSeq,
    QueueLoop,
    QueueRandom,
    QueueSingle,
    QueueClear,
}

/// A request for decoded audio samples `start..=end` of a song.
pub enum RawFileRequest {
    GetChunk { uri: String, start: usize, end: usize },
}

/// A request from a client of a local instance.
pub enum LocalRequest {
    DbRequest(RawDbRequest),
    PlayerRequest(RawPlayerRequest),
}

/// A request that a proxy forwards to a remote instance: a database request
/// on behalf of one of its clients (by connection id), or a request for
/// samples.
pub enum RemoteRequest {
    DbRequest { request: RawDbRequest, client: u64 },
    FileRequest(RawFileRequest),
}

/// The kind of a request of a local client, by the name the single-binary
/// server gives it.
pub type LocalRequestKind = LocalRequest;

impl SubTarget for DbSubTarget {}

impl SubTarget for PlayerSubTarget {}

impl RawDbRequestArgs for RawMetadataArgs {}

impl RawDbRequestArgs for RawSelectArgs {}

impl RawDbRequestArgs for RawUniqueArgs {}

impl RawPlayerRequestArgs for RawAddToQueueArgs {}

impl RawPlayerRequestArgs for RawRemoveFromQueueArgs {}

impl RawPlayerRequestArgs for RawQueueMoveArgs {}

impl RawPlayerRequestArgs for RawAddAndPlayArgs {}

impl RawPlayerRequestArgs for RawPlayArgs {}

impl RawPlayerRequestArgs for RawVolumeArgs {}

impl RawPlayerRequestArgs for RawSeekArgs {}

} // verus!
