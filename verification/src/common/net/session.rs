//! How a connection handler reacts to what its peer sends, and where a
//! request of a client goes.

use vstd::prelude::*;

use crate::common::net::request::{
    DbSubTarget, LocalRequest, PlayerSubTarget, RawDbRequest, RawFileRequest, RawPlayerRequest, RemoteRequest,
};
use crate::common::net::response::{is_err_items, Response};
use crate::text::push_str;

verus! {

/// What arrives on a websocket connection.
pub enum Incoming {
    Binary(Vec<u8>),
    Text(String),
    Ping(Vec<u8>),
    Pong(Vec<u8>),
    Close,
    /// Reading failed, with the reason.
    Failed(String),
    /// The stream ended without a closing message.
    Ended,
}

/// What the handler does next.
pub enum Step {
    /// Answer the request carried by the bytes.
    Handle(Vec<u8>),
    /// Answer a ping with the same data.
    Pong(Vec<u8>),
    /// Stop: the peer closed the connection.
    Finish,
    /// Stop with an error.
    Fail(String),
    /// Nothing to do.
    Wait,
}

/// The reaction of a client handler of a local instance: requests come as
/// binary messages, pings are answered, a closing message ends the
/// connection, and a failure or an unannounced end is an error.
pub fn client_step(msg: Incoming) -> (r: Step)
    ensures
        match msg {
            Incoming::Binary(b) => r == Step::Handle(b),
            Incoming::Ping(d) => r == Step::Pong(d),
            Incoming::Close => r is Finish,
            Incoming::Failed(e) => r == Step::Fail(e),
            Incoming::Ended => r matches Step::Fail(e) && e@ == "connection closed unexpectedly"@,
            _ => r is Wait,
        },
{
    match msg {
        Incoming::Binary(b) => Step::Handle(b),
        Incoming::Ping(d) => Step::Pong(d),
        Incoming::Close => Step::Finish,
        Incoming::Failed(e) => Step::Fail(e),
        Incoming::Ended => Step::Fail(String::from_str("connection closed unexpectedly")),
        _ => Step::Wait,
    }
}

/// The reaction of the handler of a proxy on a remote instance: like a
/// client handler, except that a closing message is not acted upon (the
/// proxy's stream then ends).
pub fn proxy_step(msg: Incoming) -> (r: Step)
    ensures
        match msg {
            Incoming::Binary(b) => r == Step::Handle(b),
            Incoming::Ping(d) => r == Step::Pong(d),
            Incoming::Failed(e) => r == Step::Fail(e),
            Incoming::Ended => r matches Step::Fail(e) && e@ == "connection closed unexpectedly"@,
            _ => r is Wait,
        },
{
    match msg {
        Incoming::Binary(b) => Step::Handle(b),
        Incoming::Ping(d) => Step::Pong(d),
        Incoming::Failed(e) => Step::Fail(e),
        Incoming::Ended => Step::Fail(String::from_str("connection closed unexpectedly")),
        _ => Step::Wait,
    }
}

/// A frame that a client handler sends back, naming the incoming message it
/// answers by its index; the closing frame ends every connection.
#[derive(Clone, Copy, Debug, PartialEq, Eq, Structural)]
pub enum Frame {
    /// The response to the request at this index.
    Reply(usize),
    /// The pong for the ping at this index.
    Pong(usize),
    /// The closing frame.
    Close,
}

/// Whether the handler stops reading at this message.
pub open spec fn is_stop(m: Incoming) -> bool {
    m is Close || m is Failed || m is Ended
}

/// The index of the first message at or after `i` where the handler stops
/// reading (the length when there is none: the stream was cut off by
/// cancellation).
pub open spec fn first_stop(msgs: Seq<Incoming>, i: int) -> int
    decreases msgs.len() - i,
{
    if i >= msgs.len() {
        msgs.len() as int
    } else if is_stop(msgs[i]) {
        i
    } else {
        first_stop(msgs, i + 1)
    }
}

/// The frame, if any, that answers message `i`.
pub open spec fn frame_of(m: Incoming, i: int) -> Seq<Frame> {
    match m {
        Incoming::Binary(_) => seq![Frame::Reply(i as usize)],
        Incoming::Ping(_) => seq![Frame::Pong(i as usize)],
        _ => Seq::empty(),
    }
}

/// The frames answering the first `k` messages, in order.
pub open spec fn frames_upto(msgs: Seq<Incoming>, k: int) -> Seq<Frame>
    decreases k,
{
    if k <= 0 {
        Seq::empty()
    } else {
        frames_upto(msgs, k - 1) + frame_of(msgs[k - 1], k - 1)
    }
}

/// The index a reply or pong answers.
pub open spec fn frame_index(f: Frame) -> int {
    match f {
        Frame::Reply(i) => i as int,
        Frame::Pong(i) => i as int,
        Frame::Close => -1,
    }
}

/// How a connection ends after reading the messages up to the stop.
pub open spec fn connection_result(msgs: Seq<Incoming>) -> Result<(), Seq<char>> {
    let k = first_stop(msgs, 0);
    if k < msgs.len() {
        match msgs[k] {
            Incoming::Failed(e) => Err(e@),
            Incoming::Ended => Err("connection closed unexpectedly"@),
            _ => Ok(()),
        }
    } else {
        Ok(())
    }
}

proof fn lemma_first_stop(msgs: Seq<Incoming>, i: int)
    requires
        0 <= i <= msgs.len(),
    ensures
        i <= first_stop(msgs, i) <= msgs.len(),
        first_stop(msgs, i) < msgs.len() ==> is_stop(msgs[first_stop(msgs, i)]),
        forall|j: int| i <= j < first_stop(msgs, i) ==> !is_stop(#[trigger] msgs[j]),
    decreases msgs.len() - i,
{
    if i < msgs.len() && !is_stop(msgs[i]) {
        lemma_first_stop(msgs, i + 1);
    }
}

/// The frames answering the first `k` messages answer them in order, each
/// request and each ping exactly once: their indices strictly increase, and
/// a reply to message `i` is among them exactly when `i < k` and message `i`
/// is a request.
pub proof fn lemma_frames_in_order(msgs: Seq<Incoming>, k: int)
    requires
        0 <= k <= msgs.len(),
        msgs.len() <= usize::MAX,
    ensures
        forall|a: int, b: int|
            0 <= a < b < frames_upto(msgs, k).len() ==> frame_index(#[trigger] frames_upto(msgs, k)[a])
                < frame_index(#[trigger] frames_upto(msgs, k)[b]),
        forall|a: int| 0 <= a < frames_upto(msgs, k).len() ==> 0 <= #[trigger] frame_index(frames_upto(msgs, k)[a]) < k,
        forall|i: int| 0 <= i < k ==> (#[trigger] msgs[i] is Binary <==> frames_upto(msgs, k).contains(Frame::Reply(i as usize))),
        forall|i: int| 0 <= i < k ==> (#[trigger] msgs[i] is Ping <==> frames_upto(msgs, k).contains(Frame::Pong(i as usize))),
        !frames_upto(msgs, k).contains(Frame::Close),
    decreases k,
{
    if k > 0 {
        lemma_frames_in_order(msgs, k - 1);
        let f = frames_upto(msgs, k - 1);
        let g = frame_of(msgs[k - 1], k - 1);
        let h = frames_upto(msgs, k);
        assert(h == f + g);
        assert forall|a: int| 0 <= a < h.len() implies 0 <= #[trigger] frame_index(h[a]) < k by {
            if a >= f.len() {
                assert(h[a] == g[a - f.len()]);
            } else {
                assert(h[a] == f[a]);
            }
        }
        assert forall|a: int, b: int| 0 <= a < b < h.len() implies frame_index(#[trigger] h[a])
            < frame_index(#[trigger] h[b]) by {
            if b >= f.len() {
                assert(h[b] == g[b - f.len()]);
                if a < f.len() {
                    assert(h[a] == f[a]);
                    assert(frame_index(f[a]) < k - 1);
                }
            } else {
                assert(h[a] == f[a] && h[b] == f[b]);
            }
        }
        assert forall|i: int| 0 <= i < k implies (#[trigger] msgs[i] is Binary <==> h.contains(
            Frame::Reply(i as usize),
        )) by {
            if i < k - 1 {
                if f.contains(Frame::Reply(i as usize)) {
                    let a = choose|a: int| 0 <= a < f.len() && f[a] == Frame::Reply(i as usize);
                    assert(h[a] == f[a]);
                }
                if h.contains(Frame::Reply(i as usize)) {
                    let a = choose|a: int| 0 <= a < h.len() && h[a] == Frame::Reply(i as usize);
                    if a >= f.len() {
                        assert(h[a] == g[a - f.len()]);
                        assert(frame_index(h[a]) == k - 1);
                    } else {
                        assert(h[a] == f[a]);
                    }
                }
            } else {
                if msgs[i] is Binary {
                    assert(h[f.len() as int] == Frame::Reply(i as usize));
                } else if h.contains(Frame::Reply(i as usize)) {
                    let a = choose|a: int| 0 <= a < h.len() && h[a] == Frame::Reply(i as usize);
                    if a >= f.len() {
                        assert(h[a] == g[a - f.len()]);
                    } else {
                        assert(h[a] == f[a]);
                        assert(frame_index(f[a]) < k - 1);
                    }
                }
            }
        }
        assert forall|i: int| 0 <= i < k implies (#[trigger] msgs[i] is Ping <==> h.contains(
            Frame::Pong(i as usize),
        )) by {
            if i < k - 1 {
                if f.contains(Frame::Pong(i as usize)) {
                    let a = choose|a: int| 0 <= a < f.len() && f[a] == Frame::Pong(i as usize);
                    assert(h[a] == f[a]);
                }
                if h.contains(Frame::Pong(i as usize)) {
                    let a = choose|a: int| 0 <= a < h.len() && h[a] == Frame::Pong(i as usize);
                    if a >= f.len() {
                        assert(h[a] == g[a - f.len()]);
                        assert(frame_index(h[a]) == k - 1);
                    } else {
                        assert(h[a] == f[a]);
                    }
                }
            } else {
                if msgs[i] is Ping {
                    assert(h[f.len() as int] == Frame::Pong(i as usize));
                } else if h.contains(Frame::Pong(i as usize)) {
                    let a = choose|a: int| 0 <= a < h.len() && h[a] == Frame::Pong(i as usize);
                    if a >= f.len() {
                        assert(h[a] == g[a - f.len()]);
                    } else {
                        assert(h[a] == f[a]);
                        assert(frame_index(f[a]) < k - 1);
                    }
                }
            }
        }
        if h.contains(Frame::Close) {
            let a = choose|a: int| 0 <= a < h.len() && h[a] == Frame::Close;
            assert(0 <= frame_index(h[a]));
        }
    }
}

/// The frames a client handler sends for the messages it reads, and how the
/// connection ends: each request and each ping up to the first closing
/// message, failure or unannounced end is answered in order, and the closing
/// frame comes last.
pub fn connection_frames(msgs: &Vec<Incoming>) -> (r: (Vec<Frame>, Result<(), String>))
    ensures
        r.0@ == frames_upto(msgs@, first_stop(msgs@, 0)).push(Frame::Close),
        match connection_result(msgs@) {
            Ok(()) => r.1 is Ok,
            Err(e) => r.1 matches Err(m) && m@ == e,
        },
{
    let mut frames: Vec<Frame> = Vec::new();
    let mut i: usize = 0;
    proof {
        lemma_first_stop(msgs@, 0);
    }
    let ghost k = first_stop(msgs@, 0);
    let mut end: Result<(), String> = Ok(());
    while i < msgs.len()
        invariant_except_break
            i <= k,
            frames@ == frames_upto(msgs@, i as int),
            end is Ok,
        invariant
            k == first_stop(msgs@, 0),
            0 <= k <= msgs@.len(),
            k < msgs@.len() ==> is_stop(msgs@[k]),
            forall|j: int| 0 <= j < k ==> !is_stop(#[trigger] msgs@[j]),
            i <= msgs@.len(),
        ensures
            frames@ == frames_upto(msgs@, k),
            match connection_result(msgs@) {
                Ok(()) => end is Ok,
                Err(e) => end matches Err(m) && m@ == e,
            },
        decreases msgs.len() - i,
    {
        match &msgs[i] {
            Incoming::Binary(_) => {
                frames.push(Frame::Reply(i));
            },
            Incoming::Ping(_) => {
                frames.push(Frame::Pong(i));
            },
            Incoming::Close => {
                break;
            },
            Incoming::Failed(e) => {
                end = Err(e.clone());
                break;
            },
            Incoming::Ended => {
                end = Err(String::from_str("connection closed unexpectedly"));
                break;
            },
            _ => {},
        }
        assert(frames_upto(msgs@, i + 1) == frames_upto(msgs@, i as int) + frame_of(msgs@[i as int], i as int));
        i = i + 1;
    }
    frames.push(Frame::Close);
    (frames, end)
}

/// Where a client's request goes: subscriptions are recorded for the
/// client's address, other requests go to the database or the player.
pub enum Dispatch {
    DbSubscribe(DbSubTarget),
    DbUnsubscribe(DbSubTarget),
    Db(RawDbRequest),
    PlayerSubscribe(PlayerSubTarget),
    PlayerUnsubscribe(PlayerSubTarget),
    Player(RawPlayerRequest),
}

/// Sorts a client's request.
pub fn dispatch(req: LocalRequest) -> (r: Dispatch)
    ensures
        match req {
            LocalRequest::DbRequest(RawDbRequest::Subscribe(t)) => r == Dispatch::DbSubscribe(t),
            LocalRequest::DbRequest(RawDbRequest::Unsubscribe(t)) => r == Dispatch::DbUnsubscribe(t),
            LocalRequest::DbRequest(d) => r == Dispatch::Db(d),
            LocalRequest::PlayerRequest(RawPlayerRequest::Subscribe(t)) => r == Dispatch::PlayerSubscribe(t),
            LocalRequest::PlayerRequest(RawPlayerRequest::Unsubscribe(t)) => r == Dispatch::PlayerUnsubscribe(t),
            LocalRequest::PlayerRequest(p) => r == Dispatch::Player(p),
        },
{
    match req {
        LocalRequest::DbRequest(RawDbRequest::Subscribe(t)) => Dispatch::DbSubscribe(t),
        LocalRequest::DbRequest(RawDbRequest::Unsubscribe(t)) => Dispatch::DbUnsubscribe(t),
        LocalRequest::DbRequest(d) => Dispatch::Db(d),
        LocalRequest::PlayerRequest(RawPlayerRequest::Subscribe(t)) => Dispatch::PlayerSubscribe(t),
        LocalRequest::PlayerRequest(RawPlayerRequest::Unsubscribe(t)) => Dispatch::PlayerUnsubscribe(t),
        LocalRequest::PlayerRequest(p) => Dispatch::Player(p),
    }
}

/// Where a remote instance sends a proxy's request: subscriptions are
/// recorded for the proxy's client, other database requests go to the
/// database (their answer is addressed to that client), and requests for
/// samples go to the decoder.
pub enum RemoteDispatch {
    DbSubscribe { target: DbSubTarget, client: u64 },
    DbUnsubscribe { target: DbSubTarget, client: u64 },
    Db { request: RawDbRequest, client: u64 },
    File(RawFileRequest),
}

/// Sorts a proxy's request.
pub fn remote_dispatch(req: RemoteRequest) -> (r: RemoteDispatch)
    ensures
        match req {
            RemoteRequest::DbRequest { request: RawDbRequest::Subscribe(t), client } => r
                == (RemoteDispatch::DbSubscribe { target: t, client }),
            RemoteRequest::DbRequest { request: RawDbRequest::Unsubscribe(t), client } => r
                == (RemoteDispatch::DbUnsubscribe { target: t, client }),
            RemoteRequest::DbRequest { request, client } => r == (RemoteDispatch::Db { request, client }),
            RemoteRequest::FileRequest(f) => r == RemoteDispatch::File(f),
        },
{
    match req {
        RemoteRequest::DbRequest { request: RawDbRequest::Subscribe(t), client } => RemoteDispatch::DbSubscribe {
            target: t,
            client,
        },
        RemoteRequest::DbRequest { request: RawDbRequest::Unsubscribe(t), client } => RemoteDispatch::DbUnsubscribe {
            target: t,
            client,
        },
        RemoteRequest::DbRequest { request, client } => RemoteDispatch::Db { request, client },
        RemoteRequest::FileRequest(f) => RemoteDispatch::File(f),
    }
}

/// The answer to a request that could not be read, with the reason.
pub fn invalid_request(reason: &str) -> (r: Response)
    ensures
        is_err_items(r.items(), "invalid request ("@ + reason@ + ")"@),
{
    let mut m = String::from_str("invalid request (");
    push_str(&mut m, reason);
    push_str(&mut m, ")");
    Response::new_err(m)
}

} // verus!
