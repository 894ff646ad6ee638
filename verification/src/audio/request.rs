//! Checked arguments of player requests.

use vstd::prelude::*;

use crate::audio::player::{moved_actions, stopped, ActionView, EventView, Player};
use crate::audio::queue::{
    fresh_pool, move_result, moved_list, moved_pos, next_step, prev_pos, uri_views, QueueError, QueueMode, QueueView,
};
use crate::audio::sink::{sink_state_name, SinkState};
use crate::common::json::{is_string_of, JsonNumber, JsonValue};
use crate::common::net::request::{
    PlayerSubTarget, RawAddAndPlayArgs, RawAddToQueueArgs, RawQueueMoveArgs, RawPlayArgs, RawPlayerRequest, RawRemoveFromQueueArgs, RawSeekArgs,
    RawVolumeArgs,
};
use crate::common::net::response::{is_err_items, ok_items, Response};

verus! {

/// Checked arguments of player requests.
pub trait ParsedPlayerRequestArgs {}

/// Arguments of `add_to_queue`.
pub struct ParsedAddToQueueArgs {
    pub uri: String,
    pub pos: Option<usize>,
}

/// Arguments of `remove_from_queue`.
pub struct ParsedRemoveFromQueueArgs {
    pub pos: usize,
}

/// Arguments of `queue_move`.
pub struct ParsedQueueMoveArgs {
    pub from: usize,
    pub to: usize,
}

/// Arguments of `add_and_play`.
pub struct ParsedAddAndPlayArgs {
    pub uris: Vec<String>,
}

/// Arguments of `play`.
pub struct ParsedPlayArgs {
    pub pos: usize,
}

/// Arguments of `volume`.
pub struct ParsedVolumeArgs {
    pub delta: i8,
}

/// Arguments of `seek`.
pub struct ParsedSeekArgs {
    pub seconds: isize,
}

impl ParsedPlayerRequestArgs for ParsedAddToQueueArgs {}

impl ParsedPlayerRequestArgs for ParsedRemoveFromQueueArgs {}

impl ParsedPlayerRequestArgs for ParsedPlayArgs {}

impl ParsedPlayerRequestArgs for ParsedQueueMoveArgs {}

impl ParsedPlayerRequestArgs for ParsedAddAndPlayArgs {}

impl ParsedQueueMoveArgs {
    /// Every raw value is accepted as it is.
    pub fn try_from(raw: RawQueueMoveArgs) -> (r: Result<Self, String>)
        ensures
            r matches Ok(p) && p.from == raw.from && p.to == raw.to,
    {
        Ok(ParsedQueueMoveArgs { from: raw.from, to: raw.to })
    }
}

impl ParsedAddAndPlayArgs {
    /// Every raw value is accepted as it is.
    pub fn try_from(raw: RawAddAndPlayArgs) -> (r: Result<Self, String>)
        ensures
            r matches Ok(p) && p.uris@ == raw.uris@,
    {
        Ok(ParsedAddAndPlayArgs { uris: raw.uris })
    }
}

impl ParsedPlayerRequestArgs for ParsedVolumeArgs {}

impl ParsedPlayerRequestArgs for ParsedSeekArgs {}

impl ParsedAddToQueueArgs {
    /// Every raw value is accepted as it is.
    pub fn try_from(raw: RawAddToQueueArgs) -> (r: Result<Self, String>)
        ensures
            r matches Ok(p) && p.uri == raw.uri && p.pos == raw.pos,
    {
        Ok(ParsedAddToQueueArgs { uri: raw.uri, pos: raw.pos })
    }
}

impl ParsedRemoveFromQueueArgs {
    /// Every raw value is accepted as it is.
    pub fn try_from(raw: RawRemoveFromQueueArgs) -> (r: Result<Self, String>)
        ensures
            r matches Ok(p) && p.pos == raw.pos,
    {
        Ok(ParsedRemoveFromQueueArgs { pos: raw.pos })
    }
}

impl ParsedPlayArgs {
    /// Every raw value is accepted as it is.
    pub fn try_from(raw: RawPlayArgs) -> (r: Result<Self, String>)
        ensures
            r matches Ok(p) && p.pos == raw.pos,
    {
        Ok(ParsedPlayArgs { pos: raw.pos })
    }
}

impl ParsedVolumeArgs {
    /// Every raw value is accepted as it is.
    pub fn try_from(raw: RawVolumeArgs) -> (r: Result<Self, String>)
        ensures
            r matches Ok(p) && p.delta == raw.delta,
    {
        Ok(ParsedVolumeArgs { delta: raw.delta })
    }
}

impl ParsedSeekArgs {
    /// Every raw value is accepted as it is.
    pub fn try_from(raw: RawSeekArgs) -> (r: Result<Self, String>)
        ensures
            r matches Ok(p) && p.seconds == raw.seconds,
    {
        Ok(ParsedSeekArgs { seconds: raw.seconds })
    }
}

/// The response items for the outcome of a queue operation.
pub open spec fn outcome_matches(m: Map<Seq<char>, JsonValue>, r: Result<(), QueueError>) -> bool {
    match r {
        Ok(_) => m == ok_items(),
        Err(e) => is_err_items(m, e.spec_message()),
    }
}

fn outcome_response(r: Result<(), QueueError>) -> (resp: Response)
    ensures
        outcome_matches(resp.items(), r),
{
    match r {
        Ok(()) => Response::new_ok(),
        Err(e) => Response::new_err(e.message()),
    }
}

/// The outcome of an operation on position `pos` of the queue.
pub open spec fn index_result(q0: QueueView, pos: usize) -> Result<(), QueueError> {
    if pos < q0.list.len() {
        Ok(())
    } else {
        Err(QueueError::OutOfBounds { index: pos, len: q0.list.len() as usize })
    }
}

/// The outcome of adding a song at `pos` (at the end when there is none).
pub open spec fn add_result(q0: QueueView, pos: Option<usize>) -> Result<(), QueueError> {
    match pos {
        Some(p) => if p <= q0.list.len() {
            Ok(())
        } else {
            Err(QueueError::OutOfBounds { index: p, len: q0.list.len() as usize })
        },
        None => Ok(()),
    }
}

/// The queue with `uri` added at `pos` (at the end when there is none); in
/// random mode the song also joins the pool.
pub open spec fn with_added(q0: QueueView, uri: Seq<char>, pos: Option<usize>) -> QueueView {
    QueueView {
        list: match pos {
            Some(p) => q0.list.insert(p as int, uri),
            None => q0.list.push(uri),
        },
        available: if q0.mode == QueueMode::Random {
            q0.available.insert(uri)
        } else {
            q0.available
        },
        ..q0
    }
}

/// Adding a song: the new queue is announced; nothing changes on an error.
pub open spec fn add_done(
    q0: QueueView,
    a0: Seq<ActionView>,
    uri: Seq<char>,
    pos: Option<usize>,
    q: QueueView,
    a: Seq<ActionView>,
) -> bool {
    if add_result(q0, pos) is Ok {
        &&& q == with_added(q0, uri, pos)
        &&& a == a0.push(ActionView::Notify(PlayerSubTarget::Queue, EventView::QueueContent(q.list)))
    } else {
        q == q0 && a == a0
    }
}

/// Removing the song at `pos`: playback stops first when it is the current
/// one; the song leaves the list and the pool; a current song at or after it
/// moves back one; the new content is announced, and the position when it
/// changed. On an error only the stop (if any) has happened.
pub open spec fn remove_done(q0: QueueView, a0: Seq<ActionView>, pos: usize, q: QueueView, a: Seq<ActionView>) -> bool {
    let current = q0.pos == Some(pos as int);
    let q1 = if current { stopped(q0) } else { q0 };
    let a1 = if current {
        a0 + seq![ActionView::SinkStop, ActionView::Notify(PlayerSubTarget::Queue, EventView::QueuePos(None))]
    } else {
        a0
    };
    if pos < q0.list.len() {
        &&& q.list == q0.list.remove(pos as int)
        &&& q.available == q1.available.remove(q0.list[pos as int])
        &&& q.mode == q0.mode
        &&& q.pos == match q1.pos {
            Some(p) => if p >= pos {
                prev_pos(q.list, q1.pos)
            } else {
                q1.pos
            },
            None => None::<int>,
        }
        &&& a == if q.pos != q1.pos {
            a1 + seq![
                ActionView::Notify(PlayerSubTarget::Queue, EventView::QueueContent(q.list)),
                ActionView::Notify(PlayerSubTarget::Queue, EventView::QueuePos(q.pos)),
            ]
        } else {
            a1.push(ActionView::Notify(PlayerSubTarget::Queue, EventView::QueueContent(q.list)))
        }
    } else {
        q == q1 && a == a1
    }
}

/// Playing the song at `pos`: it becomes current, is sent to the sink and
/// announced; nothing changes on an error.
pub open spec fn play_done(q0: QueueView, a0: Seq<ActionView>, pos: usize, q: QueueView, a: Seq<ActionView>) -> bool {
    if pos < q0.list.len() {
        &&& q == (QueueView { pos: Some(pos as int), ..q0 })
        &&& a == a0 + moved_actions(q0.list, Some(pos as int))
    } else {
        q == q0 && a == a0
    }
}

/// Stopping: the position clears, the sink stops and the position is announced.
pub open spec fn stop_done(q0: QueueView, a0: Seq<ActionView>, q: QueueView, a: Seq<ActionView>) -> bool {
    &&& q == stopped(q0)
    &&& a == a0 + seq![ActionView::SinkStop, ActionView::Notify(PlayerSubTarget::Queue, EventView::QueuePos(None))]
}

/// Moving to the next song in the queue's mode and playing it (or stopping).
pub open spec fn next_done(q0: QueueView, a0: Seq<ActionView>, q: QueueView, a: Seq<ActionView>) -> bool {
    &&& next_step(q0, q)
    &&& a == a0 + moved_actions(q.list, q.pos)
}

/// Moving to the previous song and playing it (or stopping).
pub open spec fn prev_done(q0: QueueView, a0: Seq<ActionView>, q: QueueView, a: Seq<ActionView>) -> bool {
    &&& q == (QueueView { pos: prev_pos(q0.list, q0.pos), ..q0 })
    &&& a == a0 + moved_actions(q.list, q.pos)
}

/// Moving the song at `from` to `to`: on success the current song stays
/// current and the content and position are announced; nothing changes on
/// an error.
pub open spec fn move_done(q0: QueueView, a0: Seq<ActionView>, from: usize, to: usize, q: QueueView, a: Seq<ActionView>) -> bool {
    if move_result(q0.list, from, to) is Ok {
        &&& q == (QueueView {
            list: moved_list(q0.list, from as int, to as int),
            pos: moved_pos(q0.pos, from as int, to as int),
            ..q0
        })
        &&& a == a0 + seq![
            ActionView::Notify(PlayerSubTarget::Queue, EventView::QueueContent(q.list)),
            ActionView::Notify(PlayerSubTarget::Queue, EventView::QueuePos(q.pos)),
        ]
    } else {
        q == q0 && a == a0
    }
}

/// Adding songs at the end and playing the first of them; an empty list
/// changes nothing.
pub open spec fn add_play_done(q0: QueueView, a0: Seq<ActionView>, uris: Seq<Seq<char>>, q: QueueView, a: Seq<ActionView>) -> bool {
    if uris.len() == 0 {
        q == q0 && a == a0
    } else {
        &&& q.list == q0.list + uris
        &&& q.mode == q0.mode
        &&& q.available == if q0.mode == QueueMode::Random {
            q0.available.union(uris.to_set())
        } else {
            q0.available
        }
        &&& q.pos == Some(q0.list.len() as int)
        &&& a == a0.push(ActionView::Notify(PlayerSubTarget::Queue, EventView::QueueContent(q.list))) + moved_actions(
            q.list,
            q.pos,
        )
    }
}

/// Switching to `mode` (loop or single) and announcing it.
pub open spec fn mode_done(q0: QueueView, a0: Seq<ActionView>, mode: QueueMode, q: QueueView, a: Seq<ActionView>) -> bool {
    &&& q == (QueueView { mode, ..q0 })
    &&& a == a0.push(ActionView::Notify(PlayerSubTarget::Queue, EventView::QueueMode(mode)))
}

/// Clearing the queue: no songs, no position, an empty pool; the sink stops
/// and the position and content are announced.
pub open spec fn clear_done(q0: QueueView, a0: Seq<ActionView>, q: QueueView, a: Seq<ActionView>) -> bool {
    &&& q == (QueueView {
        list: Seq::<Seq<char>>::empty(),
        pos: None,
        mode: q0.mode,
        available: Set::<Seq<char>>::empty(),
    })
    &&& a == a0 + seq![
        ActionView::SinkStop,
        ActionView::Notify(PlayerSubTarget::Queue, EventView::QueuePos(None)),
        ActionView::Notify(PlayerSubTarget::Queue, EventView::QueueContent(Seq::<Seq<char>>::empty())),
    ]
}

/// Switching to sequential mode and announcing it.
pub open spec fn seq_done(q0: QueueView, a0: Seq<ActionView>, q: QueueView, a: Seq<ActionView>) -> bool {
    &&& q == (QueueView { mode: QueueMode::Sequential, ..q0 })
    &&& a == a0.push(ActionView::Notify(PlayerSubTarget::Queue, EventView::QueueMode(QueueMode::Sequential)))
}

/// Switching to random mode with a fresh pool and announcing it.
pub open spec fn random_done(q0: QueueView, a0: Seq<ActionView>, q: QueueView, a: Seq<ActionView>) -> bool {
    &&& q == (QueueView { mode: QueueMode::Random, available: fresh_pool(q0.list, q0.pos), ..q0 })
    &&& a == a0.push(ActionView::Notify(PlayerSubTarget::Queue, EventView::QueueMode(QueueMode::Random)))
}

/// A command passed on to the sink; the queue is unchanged.
pub open spec fn sink_done(q0: QueueView, a0: Seq<ActionView>, cmd: ActionView, q: QueueView, a: Seq<ActionView>) -> bool {
    q == q0 && a == a0.push(cmd)
}

/// The reply is there and reports `res`.
pub open spec fn replies(r: Option<Response>, res: Result<(), QueueError>) -> bool {
    r matches Some(resp) && outcome_matches(resp.items(), res)
}

/// What a raw player request does to the queue and the pending actions, and
/// how it is answered. `State` and subscriptions get no answer here and change
/// nothing.
pub open spec fn raw_request_done(
    q0: QueueView,
    a0: Seq<ActionView>,
    raw: RawPlayerRequest,
    q: QueueView,
    a: Seq<ActionView>,
    r: Option<Response>,
) -> bool {
    match raw {
        RawPlayerRequest::AddToQueue(x) => add_done(q0, a0, x.uri@, x.pos, q, a) && replies(r, add_result(q0, x.pos)),
        RawPlayerRequest::RemoveFromQueue(x) => remove_done(q0, a0, x.pos, q, a) && replies(r, index_result(q0, x.pos)),
        RawPlayerRequest::QueueMove(x) => move_done(q0, a0, x.from, x.to, q, a) && replies(
            r,
            move_result(q0.list, x.from, x.to),
        ),
        RawPlayerRequest::AddAndPlay(x) => add_play_done(q0, a0, uri_views(x.uris@), q, a) && replies(r, Ok(())),
        RawPlayerRequest::Play(x) => play_done(q0, a0, x.pos, q, a) && replies(r, index_result(q0, x.pos)),
        RawPlayerRequest::Volume(x) => sink_done(q0, a0, ActionView::SinkVolChange(x.delta), q, a) && replies(r, Ok(())),
        RawPlayerRequest::Seek(x) => sink_done(q0, a0, ActionView::SinkSeekBy(x.seconds), q, a) && replies(r, Ok(())),
        RawPlayerRequest::Pause => sink_done(q0, a0, ActionView::SinkPause, q, a) && replies(r, Ok(())),
        RawPlayerRequest::Resume => sink_done(q0, a0, ActionView::SinkResume, q, a) && replies(r, Ok(())),
        RawPlayerRequest::Toggle => sink_done(q0, a0, ActionView::SinkToggle, q, a) && replies(r, Ok(())),
        RawPlayerRequest::Stop => stop_done(q0, a0, q, a) && replies(r, Ok(())),
        RawPlayerRequest::Next => next_done(q0, a0, q, a) && replies(r, Ok(())),
        RawPlayerRequest::Prev => prev_done(q0, a0, q, a) && replies(r, Ok(())),
        RawPlayerRequest::QueueSeq => seq_done(q0, a0, q, a) && replies(r, Ok(())),
        RawPlayerRequest::QueueLoop => mode_done(q0, a0, QueueMode::Loop, q, a) && replies(r, Ok(())),
        RawPlayerRequest::QueueRandom => random_done(q0, a0, q, a) && replies(r, Ok(())),
        RawPlayerRequest::QueueSingle => mode_done(q0, a0, QueueMode::Single, q, a) && replies(r, Ok(())),
        RawPlayerRequest::QueueClear => clear_done(q0, a0, q, a) && replies(r, Ok(())),
        RawPlayerRequest::State | RawPlayerRequest::Subscribe(_) | RawPlayerRequest::Unsubscribe(_) => {
            r is None && q == q0 && a == a0
        },
    }
}

/// The JSON for an optional position.
pub open spec fn pos_json_matches(v: JsonValue, pos: Option<int>) -> bool {
    match pos {
        Some(p) => v matches JsonValue::Number(n) && n.value() == p,
        None => v == JsonValue::Null,
    }
}

impl Player {
    /// Adds the song to the queue at the given position (at the end when
    /// there is none).
    pub fn req_add_to_queue(&mut self, args: ParsedAddToQueueArgs) -> (r: Response)
        requires
            old(self).wf(),
        ensures
            final(self).wf(),
            add_done(old(self).queue_view(), old(self).pending(), args.uri@, args.pos, final(self).queue_view(), final(self).pending()),
            outcome_matches(r.items(), add_result(old(self).queue_view(), args.pos)),
    {
        let res = self.add_to_queue(args.uri, args.pos);
        outcome_response(res)
    }

    /// Removes the song at the given position from the queue.
    pub fn req_remove_from_queue(&mut self, args: ParsedRemoveFromQueueArgs) -> (r: Response)
        requires
            old(self).wf(),
        ensures
            final(self).wf(),
            remove_done(old(self).queue_view(), old(self).pending(), args.pos, final(self).queue_view(), final(self).pending()),
            outcome_matches(r.items(), index_result(old(self).queue_view(), args.pos)),
    {
        let res = self.remove_from_queue(args.pos);
        outcome_response(res)
    }

    /// Plays the song at the given position.
    pub fn req_play(&mut self, args: ParsedPlayArgs) -> (r: Response)
        requires
            old(self).wf(),
        ensures
            final(self).wf(),
            play_done(old(self).queue_view(), old(self).pending(), args.pos, final(self).queue_view(), final(self).pending()),
            outcome_matches(r.items(), index_result(old(self).queue_view(), args.pos)),
    {
        let res = self.play(args.pos);
        outcome_response(res)
    }

    /// Changes the volume by the given amount.
    pub fn req_volume(&mut self, args: ParsedVolumeArgs) -> (r: Response)
        requires
            old(self).wf(),
        ensures
            final(self).wf(),
            r.items() == ok_items(),
            final(self).queue_view() == old(self).queue_view(),
            final(self).pending() == old(self).pending().push(ActionView::SinkVolChange(args.delta)),
    {
        self.volume_change(args.delta);
        Response::new_ok()
    }

    /// Seeks by the given number of seconds.
    pub fn req_seek(&mut self, args: ParsedSeekArgs) -> (r: Response)
        requires
            old(self).wf(),
        ensures
            final(self).wf(),
            r.items() == ok_items(),
            final(self).queue_view() == old(self).queue_view(),
            final(self).pending() == old(self).pending().push(ActionView::SinkSeekBy(args.seconds)),
    {
        self.seek_by(args.seconds);
        Response::new_ok()
    }

    /// Pauses playback.
    pub fn req_pause(&mut self) -> (r: Response)
        requires
            old(self).wf(),
        ensures
            final(self).wf(),
            r.items() == ok_items(),
            final(self).queue_view() == old(self).queue_view(),
            final(self).pending() == old(self).pending().push(ActionView::SinkPause),
    {
        self.pause();
        Response::new_ok()
    }

    /// Resumes playback.
    pub fn req_resume(&mut self) -> (r: Response)
        requires
            old(self).wf(),
        ensures
            final(self).wf(),
            r.items() == ok_items(),
            final(self).queue_view() == old(self).queue_view(),
            final(self).pending() == old(self).pending().push(ActionView::SinkResume),
    {
        self.resume();
        Response::new_ok()
    }

    /// Toggles between playing and paused.
    pub fn req_toggle(&mut self) -> (r: Response)
        requires
            old(self).wf(),
        ensures
            final(self).wf(),
            r.items() == ok_items(),
            final(self).queue_view() == old(self).queue_view(),
            final(self).pending() == old(self).pending().push(ActionView::SinkToggle),
    {
        self.toggle();
        Response::new_ok()
    }

    /// Stops playback.
    pub fn req_stop(&mut self) -> (r: Response)
        requires
            old(self).wf(),
        ensures
            final(self).wf(),
            r.items() == ok_items(),
            stop_done(old(self).queue_view(), old(self).pending(), final(self).queue_view(), final(self).pending()),
    {
        self.stop();
        Response::new_ok()
    }

    /// Plays the next song.
    pub fn req_next(&mut self) -> (r: Response)
        requires
            old(self).wf(),
        ensures
            final(self).wf(),
            r.items() == ok_items(),
            next_done(old(self).queue_view(), old(self).pending(), final(self).queue_view(), final(self).pending()),
    {
        self.next();
        Response::new_ok()
    }

    /// Plays the previous song.
    pub fn req_prev(&mut self) -> (r: Response)
        requires
            old(self).wf(),
        ensures
            final(self).wf(),
            r.items() == ok_items(),
            prev_done(old(self).queue_view(), old(self).pending(), final(self).queue_view(), final(self).pending()),
    {
        self.prev();
        Response::new_ok()
    }

    /// Switches to sequential mode.
    pub fn req_queue_seq(&mut self) -> (r: Response)
        requires
            old(self).wf(),
        ensures
            final(self).wf(),
            r.items() == ok_items(),
            seq_done(old(self).queue_view(), old(self).pending(), final(self).queue_view(), final(self).pending()),
    {
        self.queue_seq();
        Response::new_ok()
    }

    /// Moves the song at `from` to `to`.
    pub fn req_queue_move(&mut self, args: ParsedQueueMoveArgs) -> (r: Response)
        requires
            old(self).wf(),
        ensures
            final(self).wf(),
            move_done(old(self).queue_view(), old(self).pending(), args.from, args.to, final(self).queue_view(), final(self).pending()),
            outcome_matches(r.items(), move_result(old(self).queue_view().list, args.from, args.to)),
    {
        let res = self.queue_move(args.from, args.to);
        outcome_response(res)
    }

    /// Adds the songs at the end and plays the first of them.
    pub fn req_add_and_play(&mut self, args: ParsedAddAndPlayArgs) -> (r: Response)
        requires
            old(self).wf(),
        ensures
            final(self).wf(),
            add_play_done(old(self).queue_view(), old(self).pending(), uri_views(args.uris@), final(self).queue_view(), final(self).pending()),
            r.items() == ok_items(),
    {
        self.add_and_play(args.uris);
        Response::new_ok()
    }

    /// Switches to loop mode.
    pub fn req_queue_loop(&mut self) -> (r: Response)
        requires
            old(self).wf(),
        ensures
            final(self).wf(),
            r.items() == ok_items(),
            mode_done(old(self).queue_view(), old(self).pending(), QueueMode::Loop, final(self).queue_view(), final(self).pending()),
    {
        self.queue_loop();
        Response::new_ok()
    }

    /// Switches to single mode.
    pub fn req_queue_single(&mut self) -> (r: Response)
        requires
            old(self).wf(),
        ensures
            final(self).wf(),
            r.items() == ok_items(),
            mode_done(old(self).queue_view(), old(self).pending(), QueueMode::Single, final(self).queue_view(), final(self).pending()),
    {
        self.queue_single();
        Response::new_ok()
    }

    /// Empties the queue.
    pub fn req_queue_clear(&mut self) -> (r: Response)
        requires
            old(self).wf(),
        ensures
            final(self).wf(),
            r.items() == ok_items(),
            clear_done(old(self).queue_view(), old(self).pending(), final(self).queue_view(), final(self).pending()),
    {
        self.queue_clear();
        Response::new_ok()
    }

    /// Switches to random mode.
    pub fn req_queue_random(&mut self) -> (r: Response)
        requires
            old(self).wf(),
        ensures
            final(self).wf(),
            r.items() == ok_items(),
            random_done(old(self).queue_view(), old(self).pending(), final(self).queue_view(), final(self).pending()),
    {
        self.queue_random();
        Response::new_ok()
    }

    /// The player's state: the queue, the current song and position, and the
    /// sink's state, volume and elapsed seconds as reported by the sink.
    pub fn req_state(&self, sink_state: SinkState, volume: u8, elapsed: u64) -> (r: Response)
        requires
            self.wf(),
        ensures
            r.items().dom() == set!["ok"@, "queue"@, "current_song"@, "queue_pos"@, "sink_state"@, "volume"@, "elapsed"@],
            r.items()["ok"@] == JsonValue::Bool(true),
            r.items()["queue"@] matches JsonValue::Array(a) && a.len() == self.queue_view().list.len()
                && forall|i: int| 0 <= i < a.len() ==> is_string_of(#[trigger] a[i], self.queue_view().list[i]),
            match self.queue_view().pos {
                Some(p) => is_string_of(r.items()["current_song"@], self.queue_view().list[p]),
                None => r.items()["current_song"@] == JsonValue::Null,
            },
            pos_json_matches(r.items()["queue_pos"@], self.queue_view().pos),
            is_string_of(r.items()["sink_state"@], sink_state_name(sink_state)),
            r.items()["volume"@] matches JsonValue::Number(n) && n.value() == volume,
            r.items()["elapsed"@] matches JsonValue::Number(n) && n.value() == elapsed,
    {
        proof {
            reveal_strlit("ok");
            reveal_strlit("queue");
            reveal_strlit("current_song");
            reveal_strlit("queue_pos");
            reveal_strlit("sink_state");
            reveal_strlit("volume");
            reveal_strlit("elapsed");
            assert("ok"@.len() == 2 && "queue"@.len() == 5 && "current_song"@.len() == 12
                && "queue_pos"@.len() == 9 && "sink_state"@.len() == 10 && "volume"@.len() == 6
                && "elapsed"@.len() == 7);
        }
        let queue = self.queue();
        let list = queue.list_cloned();
        let current = match queue.cur() {
            Some(s) => JsonValue::String(String::from_str(s)),
            None => JsonValue::Null,
        };
        let pos = match queue.pos() {
            Some(p) => JsonValue::Number(JsonNumber::from_u64(p as u64)),
            None => JsonValue::Null,
        };
        let r = Response::new_ok()
            .with_item(String::from_str("queue"), JsonValue::from_strings(&list))
            .with_item(String::from_str("current_song"), current)
            .with_item(String::from_str("queue_pos"), pos)
            .with_item(String::from_str("sink_state"), JsonValue::String(String::from_str(sink_state.name())))
            .with_item(String::from_str("volume"), JsonValue::Number(JsonNumber::from_u64(volume as u64)))
            .with_item(String::from_str("elapsed"), JsonValue::Number(JsonNumber::from_u64(elapsed)));
        assert(r.items().dom() =~= set!["ok"@, "queue"@, "current_song"@, "queue_pos"@, "sink_state"@, "volume"@, "elapsed"@]);
        r
    }

    /// Carries out a raw player request and answers it. `State` (which needs
    /// the sink's report) and subscriptions are left to the caller: for them
    /// the result is `None`.
    pub fn handle_raw_request(&mut self, raw: RawPlayerRequest) -> (r: Option<Response>)
        requires
            old(self).wf(),
        ensures
            final(self).wf(),
            raw_request_done(old(self).queue_view(), old(self).pending(), raw, final(self).queue_view(), final(self).pending(), r),
    {
        match raw {
            RawPlayerRequest::AddToQueue(a) => match ParsedAddToQueueArgs::try_from(a) {
                Ok(p) => Some(self.req_add_to_queue(p)),
                Err(e) => Some(Response::new_err(e)),
            },
            RawPlayerRequest::RemoveFromQueue(a) => match ParsedRemoveFromQueueArgs::try_from(a) {
                Ok(p) => Some(self.req_remove_from_queue(p)),
                Err(e) => Some(Response::new_err(e)),
            },
            RawPlayerRequest::QueueMove(a) => match ParsedQueueMoveArgs::try_from(a) {
                Ok(p) => Some(self.req_queue_move(p)),
                Err(e) => Some(Response::new_err(e)),
            },
            RawPlayerRequest::AddAndPlay(a) => match ParsedAddAndPlayArgs::try_from(a) {
                Ok(p) => Some(self.req_add_and_play(p)),
                Err(e) => Some(Response::new_err(e)),
            },
            RawPlayerRequest::Play(a) => match ParsedPlayArgs::try_from(a) {
                Ok(p) => Some(self.req_play(p)),
                Err(e) => Some(Response::new_err(e)),
            },
            RawPlayerRequest::Volume(a) => match ParsedVolumeArgs::try_from(a) {
                Ok(p) => Some(self.req_volume(p)),
                Err(e) => Some(Response::new_err(e)),
            },
            RawPlayerRequest::Seek(a) => match ParsedSeekArgs::try_from(a) {
                Ok(p) => Some(self.req_seek(p)),
                Err(e) => Some(Response::new_err(e)),
            },
            RawPlayerRequest::Pause => Some(self.req_pause()),
            RawPlayerRequest::Resume => Some(self.req_resume()),
            RawPlayerRequest::Toggle => Some(self.req_toggle()),
            RawPlayerRequest::Stop => Some(self.req_stop()),
            RawPlayerRequest::Next => Some(self.req_next()),
            RawPlayerRequest::Prev => Some(self.req_prev()),
            RawPlayerRequest::QueueSeq => Some(self.req_queue_seq()),
            RawPlayerRequest::QueueLoop => Some(self.req_queue_loop()),
            RawPlayerRequest::QueueRandom => Some(self.req_queue_random()),
            RawPlayerRequest::QueueSingle => Some(self.req_queue_single()),
            RawPlayerRequest::QueueClear => Some(self.req_queue_clear()),
            RawPlayerRequest::State => None,
            RawPlayerRequest::Subscribe(_) => None,
            RawPlayerRequest::Unsubscribe(_) => None,
        }
    }
}

} // verus!
