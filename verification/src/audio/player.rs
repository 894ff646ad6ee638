//! The player: the queue plus the decisions taken on each request. Commands
//! for the sink and notifications for subscribers are collected as actions,
//! which the caller takes and carries out in order.

use vstd::prelude::*;

use crate::audio::queue::{
    fresh_pool, move_result, moved_list, moved_pos, next_step, opt_int, prev_pos, uri_views, Queue, QueueError, QueueMode,
    QueueView,
};
use crate::audio::sink::{SinkRequest, SinkResponse, SinkState};
use crate::audio::volume::Volume;
use crate::common::net::request::PlayerSubTarget;

verus! {

broadcast use vstd::seq_lib::group_seq_properties;

/// Events sent to subscribers of the player.
#[derive(Debug)]
pub enum PlayerEvent {
    QueueContent { queue: Vec<String> },
    QueuePos { pos: Option<usize> },
    QueueMode { mode: QueueMode },
    CurrentSong { uri: String },
    PlaybackState { state: SinkState },
    Volume { volume: u8 },
    Elapsed { seconds: u64 },
}

/// Something the caller must do after a player operation.
#[derive(Debug)]
pub enum PlayerAction {
    /// Send the command to the sink.
    Sink(SinkRequest),
    /// Send the event to every subscriber of the target.
    Notify(PlayerSubTarget, PlayerEvent),
}

/// The abstract content of an event.
pub enum EventView {
    QueueContent(Seq<Seq<char>>),
    QueuePos(Option<int>),
    QueueMode(QueueMode),
    CurrentSong(Seq<char>),
    PlaybackState(SinkState),
    Volume(u8),
    Elapsed(u64),
}

/// The abstract content of an action.
pub enum ActionView {
    SinkPlay(Seq<char>),
    SinkStop,
    SinkPause,
    SinkResume,
    SinkToggle,
    SinkVolChange(i8),
    SinkVolSet(u8),
    SinkSeekBy(isize),
    SinkSeekTo(usize),
    Notify(PlayerSubTarget, EventView),
}

pub open spec fn event_view(e: PlayerEvent) -> EventView {
    match e {
        PlayerEvent::QueueContent { queue } => EventView::QueueContent(uri_views(queue@)),
        PlayerEvent::QueuePos { pos } => EventView::QueuePos(opt_int(pos)),
        PlayerEvent::QueueMode { mode } => EventView::QueueMode(mode),
        PlayerEvent::CurrentSong { uri } => EventView::CurrentSong(uri@),
        PlayerEvent::PlaybackState { state } => EventView::PlaybackState(state),
        PlayerEvent::Volume { volume } => EventView::Volume(volume),
        PlayerEvent::Elapsed { seconds } => EventView::Elapsed(seconds),
    }
}

pub open spec fn action_view(a: PlayerAction) -> ActionView {
    match a {
        PlayerAction::Sink(r) => match r {
            SinkRequest::Play(u) => ActionView::SinkPlay(u@),
            SinkRequest::Stop => ActionView::SinkStop,
            SinkRequest::Pause => ActionView::SinkPause,
            SinkRequest::Resume => ActionView::SinkResume,
            SinkRequest::Toggle => ActionView::SinkToggle,
            SinkRequest::VolChange(d) => ActionView::SinkVolChange(d),
            SinkRequest::VolSet(v) => ActionView::SinkVolSet(v),
            SinkRequest::SeekBy(s) => ActionView::SinkSeekBy(s),
            SinkRequest::SeekTo(s) => ActionView::SinkSeekTo(s),
        },
        PlayerAction::Notify(t, e) => ActionView::Notify(t, event_view(e)),
    }
}

pub open spec fn actions_view(v: Seq<PlayerAction>) -> Seq<ActionView> {
    v.map_values(|a: PlayerAction| action_view(a))
}

/// The actions after the queue moved to `pos`: play the song there and
/// announce it, or stop when there is none; then announce the position.
pub open spec fn moved_actions(list: Seq<Seq<char>>, pos: Option<int>) -> Seq<ActionView> {
    match pos {
        Some(p) => seq![
            ActionView::SinkPlay(list[p]),
            ActionView::Notify(PlayerSubTarget::Sink, EventView::CurrentSong(list[p])),
            ActionView::Notify(PlayerSubTarget::Queue, EventView::QueuePos(Some(p))),
        ],
        None => seq![
            ActionView::SinkStop,
            ActionView::Notify(PlayerSubTarget::Queue, EventView::QueuePos(None)),
            ActionView::Notify(PlayerSubTarget::Queue, EventView::QueuePos(None)),
        ],
    }
}

/// The queue with the playback stopped.
pub open spec fn stopped(q: QueueView) -> QueueView {
    QueueView { pos: None, ..q }
}

/// The queue and the decisions of the player.
pub struct Player {
    queue: Queue,
    outbox: Vec<PlayerAction>,
}

impl Player {
    pub closed spec fn wf(&self) -> bool {
        self.queue.wf()
    }

    /// The state of the queue.
    pub closed spec fn queue_view(&self) -> QueueView {
        self.queue@
    }

    /// The actions not taken yet, oldest first.
    pub closed spec fn pending(&self) -> Seq<ActionView> {
        actions_view(self.outbox@)
    }

    /// A player with an empty queue and nothing to do.
    pub fn new() -> (p: Player)
        ensures
            p.wf(),
            p.queue_view().list == Seq::<Seq<char>>::empty(),
            p.queue_view().pos is None,
            p.queue_view().mode == QueueMode::Sequential,
            p.queue_view().available == Set::<Seq<char>>::empty(),
            p.pending() == Seq::<ActionView>::empty(),
    {
        let p = Player { queue: Queue::new(), outbox: Vec::new() };
        assert(actions_view(p.outbox@) =~= Seq::<ActionView>::empty());
        p
    }

    /// The queue.
    pub fn queue(&self) -> (r: &Queue)
        ensures
            r@ == self.queue_view(),
            self.wf() ==> r.wf(),
    {
        &self.queue
    }

    /// Takes the actions to carry out, oldest first.
    pub fn take_actions(&mut self) -> (r: Vec<PlayerAction>)
        requires
            old(self).wf(),
        ensures
            final(self).wf(),
            actions_view(r@) == old(self).pending(),
            final(self).pending() == Seq::<ActionView>::empty(),
            final(self).queue_view() == old(self).queue_view(),
    {
        let mut taken: Vec<PlayerAction> = Vec::new();
        std::mem::swap(&mut taken, &mut self.outbox);
        assert(actions_view(self.outbox@) =~= Seq::<ActionView>::empty());
        taken
    }

    fn emit(&mut self, a: PlayerAction)
        ensures
            final(self).pending() == old(self).pending().push(action_view(a)),
            final(self).queue == old(self).queue,
    {
        let ghost before = self.outbox@;
        self.outbox.push(a);
        assert(actions_view(self.outbox@) =~= actions_view(before).push(action_view(a)));
    }

    fn emit_sink(&mut self, r: SinkRequest)
        ensures
            final(self).pending() == old(self).pending().push(action_view(PlayerAction::Sink(r))),
            final(self).queue == old(self).queue,
    {
        self.emit(PlayerAction::Sink(r));
    }

    /// The current song, if any.
    pub fn cur_song(&self) -> (r: Option<&str>)
        requires
            self.wf(),
        ensures
            match self.queue_view().pos {
                Some(p) => r matches Some(s) && s@ == self.queue_view().list[p],
                None => r is None,
            },
    {
        self.queue.cur()
    }

    /// Announces the queue's content to its subscribers.
    pub fn notify_queue_content(&mut self)
        requires
            old(self).wf(),
        ensures
            final(self).wf(),
            final(self).queue_view() == old(self).queue_view(),
            final(self).pending() == old(self).pending().push(
                ActionView::Notify(PlayerSubTarget::Queue, EventView::QueueContent(old(self).queue_view().list)),
            ),
    {
        let queue = self.queue.list_cloned();
        self.emit(PlayerAction::Notify(PlayerSubTarget::Queue, PlayerEvent::QueueContent { queue }));
    }

    /// Announces the queue's position to its subscribers.
    pub fn notify_queue_pos(&mut self)
        requires
            old(self).wf(),
        ensures
            final(self).wf(),
            final(self).queue_view() == old(self).queue_view(),
            final(self).pending() == old(self).pending().push(
                ActionView::Notify(PlayerSubTarget::Queue, EventView::QueuePos(old(self).queue_view().pos)),
            ),
    {
        let pos = self.queue.pos();
        self.emit(PlayerAction::Notify(PlayerSubTarget::Queue, PlayerEvent::QueuePos { pos }));
    }

    /// Announces the queue's mode to its subscribers.
    pub fn notify_queue_mode(&mut self)
        requires
            old(self).wf(),
        ensures
            final(self).wf(),
            final(self).queue_view() == old(self).queue_view(),
            final(self).pending() == old(self).pending().push(
                ActionView::Notify(PlayerSubTarget::Queue, EventView::QueueMode(old(self).queue_view().mode)),
            ),
    {
        let mode = self.queue.mode();
        self.emit(PlayerAction::Notify(PlayerSubTarget::Queue, PlayerEvent::QueueMode { mode }));
    }

    /// Announces the sink's playback state to its subscribers.
    pub fn notify_playback_state(&mut self, state: SinkState)
        requires
            old(self).wf(),
        ensures
            final(self).wf(),
            final(self).queue_view() == old(self).queue_view(),
            final(self).pending() == old(self).pending().push(
                ActionView::Notify(PlayerSubTarget::Sink, EventView::PlaybackState(state)),
            ),
    {
        self.emit(PlayerAction::Notify(PlayerSubTarget::Sink, PlayerEvent::PlaybackState { state }));
    }

    /// Announces the volume to the sink's subscribers.
    pub fn notify_volume(&mut self, volume: Volume)
        requires
            old(self).wf(),
        ensures
            final(self).wf(),
            final(self).queue_view() == old(self).queue_view(),
            final(self).pending() == old(self).pending().push(
                ActionView::Notify(PlayerSubTarget::Sink, EventView::Volume(volume.0)),
            ),
    {
        self.emit(PlayerAction::Notify(PlayerSubTarget::Sink, PlayerEvent::Volume { volume: volume.0 }));
    }

    /// Announces the elapsed seconds to the sink's subscribers.
    pub fn notify_elapsed(&mut self, seconds: u64)
        requires
            old(self).wf(),
        ensures
            final(self).wf(),
            final(self).queue_view() == old(self).queue_view(),
            final(self).pending() == old(self).pending().push(
                ActionView::Notify(PlayerSubTarget::Sink, EventView::Elapsed(seconds)),
            ),
    {
        self.emit(PlayerAction::Notify(PlayerSubTarget::Sink, PlayerEvent::Elapsed { seconds }));
    }

    /// Announces the song that started to the sink's subscribers.
    pub fn notify_song(&mut self, uri: String)
        requires
            old(self).wf(),
        ensures
            final(self).wf(),
            final(self).queue_view() == old(self).queue_view(),
            final(self).pending() == old(self).pending().push(
                ActionView::Notify(PlayerSubTarget::Sink, EventView::CurrentSong(uri@)),
            ),
    {
        self.emit(PlayerAction::Notify(PlayerSubTarget::Sink, PlayerEvent::CurrentSong { uri }));
    }

    fn play_from_uri(&mut self, uri: String)
        requires
            old(self).wf(),
        ensures
            final(self).wf(),
            final(self).queue_view() == old(self).queue_view(),
            final(self).pending() == old(self).pending() + seq![
                ActionView::SinkPlay(uri@),
                ActionView::Notify(PlayerSubTarget::Sink, EventView::CurrentSong(uri@)),
            ],
    {
        self.emit_sink(SinkRequest::Play(uri.clone()));
        self.notify_song(uri);
    }

    /// Adds `uri` at position `pos` (at the end when there is none) and
    /// announces the new content.
    pub fn add_to_queue(&mut self, uri: String, pos: Option<usize>) -> (r: Result<(), QueueError>)
        requires
            old(self).wf(),
        ensures
            final(self).wf(),
            final(self).queue_view().pos == old(self).queue_view().pos,
            final(self).queue_view().mode == old(self).queue_view().mode,
            match pos {
                Some(p) => if p <= old(self).queue_view().list.len() {
                    r is Ok && final(self).queue_view().list == old(self).queue_view().list.insert(p as int, uri@)
                } else {
                    r == Err::<(), QueueError>(QueueError::OutOfBounds {
                        index: p,
                        len: old(self).queue_view().list.len() as usize,
                    }) && final(self).queue_view() == old(self).queue_view()
                },
                None => r is Ok && final(self).queue_view().list == old(self).queue_view().list.push(uri@),
            },
            r is Ok ==> final(self).queue_view().available == if old(self).queue_view().mode == QueueMode::Random {
                old(self).queue_view().available.insert(uri@)
            } else {
                old(self).queue_view().available
            },
            r is Ok ==> final(self).pending() == old(self).pending().push(
                ActionView::Notify(PlayerSubTarget::Queue, EventView::QueueContent(final(self).queue_view().list)),
            ),
            r is Err ==> final(self).pending() == old(self).pending(),
    {
        let res = match pos {
            Some(pos) => self.queue.insert(uri, pos),
            None => {
                self.queue.push(uri);
                Ok(())
            },
        };
        if res.is_ok() {
            self.notify_queue_content();
        }
        res
    }

    /// Stops playback and clears the position.
    pub fn stop(&mut self)
        requires
            old(self).wf(),
        ensures
            final(self).wf(),
            final(self).queue_view() == stopped(old(self).queue_view()),
            final(self).pending() == old(self).pending() + seq![
                ActionView::SinkStop,
                ActionView::Notify(PlayerSubTarget::Queue, EventView::QueuePos(None)),
            ],
    {
        self.emit_sink(SinkRequest::Stop);
        self.queue.stop();
        self.notify_queue_pos();
    }

    /// Removes the song at `pos`; playback stops first when it is the current
    /// one. Announces the new content, and the position when it changed.
    pub fn remove_from_queue(&mut self, pos: usize) -> (r: Result<(), QueueError>)
        requires
            old(self).wf(),
        ensures
            final(self).wf(),
            ({
                let q0 = old(self).queue_view();
                let current = q0.pos == Some(pos as int);
                let q1 = if current { stopped(q0) } else { q0 };
                let a1 = if current {
                    old(self).pending() + seq![
                        ActionView::SinkStop,
                        ActionView::Notify(PlayerSubTarget::Queue, EventView::QueuePos(None)),
                    ]
                } else {
                    old(self).pending()
                };
                let q2 = final(self).queue_view();
                if pos < q0.list.len() {
                    &&& r is Ok
                    &&& q2.list == q0.list.remove(pos as int)
                    &&& q2.available == q1.available.remove(q0.list[pos as int])
                    &&& q2.mode == q0.mode
                    &&& q2.pos == match q1.pos {
                        Some(p) => if p >= pos {
                            prev_pos(q2.list, q1.pos)
                        } else {
                            q1.pos
                        },
                        None => None::<int>,
                    }
                    &&& final(self).pending() == if q2.pos != q1.pos {
                        a1 + seq![
                            ActionView::Notify(PlayerSubTarget::Queue, EventView::QueueContent(q2.list)),
                            ActionView::Notify(PlayerSubTarget::Queue, EventView::QueuePos(q2.pos)),
                        ]
                    } else {
                        a1.push(ActionView::Notify(PlayerSubTarget::Queue, EventView::QueueContent(q2.list)))
                    }
                } else {
                    &&& r == Err::<(), QueueError>(QueueError::OutOfBounds { index: pos, len: q0.list.len() as usize })
                    &&& q2 == q1
                    &&& final(self).pending() == a1
                }
            }),
    {
        if self.queue.pos() == Some(pos) {
            self.stop();
        }
        let prev_pos = self.queue.pos();
        let res = self.queue.remove(pos);
        match res {
            Ok(()) => {},
            Err(e) => return Err(e),
        }
        self.notify_queue_content();
        if prev_pos != self.queue.pos() {
            self.notify_queue_pos();
        }
        Ok(())
    }

    /// Plays the song at `pos`.
    pub fn play(&mut self, pos: usize) -> (r: Result<(), QueueError>)
        requires
            old(self).wf(),
        ensures
            final(self).wf(),
            pos < old(self).queue_view().list.len() ==> {
                &&& r is Ok
                &&& final(self).queue_view() == (QueueView { pos: Some(pos as int), ..old(self).queue_view() })
                &&& final(self).pending() == old(self).pending() + moved_actions(
                    old(self).queue_view().list,
                    Some(pos as int),
                )
            },
            pos >= old(self).queue_view().list.len() ==> {
                &&& r == Err::<(), QueueError>(QueueError::OutOfBounds {
                    index: pos,
                    len: old(self).queue_view().list.len() as usize,
                })
                &&& final(self).queue_view() == old(self).queue_view()
                &&& final(self).pending() == old(self).pending()
            },
    {
        match self.queue.move_to(pos) {
            Ok(()) => {},
            Err(e) => return Err(e),
        }
        let uri = match self.queue.get(pos) {
            Ok(u) => String::from_str(u),
            Err(e) => return Err(e),
        };
        self.play_from_uri(uri);
        self.notify_queue_pos();
        Ok(())
    }

    /// Asks the sink to change the volume by `delta`.
    pub fn volume_change(&mut self, delta: i8)
        requires
            old(self).wf(),
        ensures
            final(self).wf(),
            final(self).queue_view() == old(self).queue_view(),
            final(self).pending() == old(self).pending().push(ActionView::SinkVolChange(delta)),
    {
        self.emit_sink(SinkRequest::VolChange(delta));
    }

    /// Asks the sink to set the volume.
    pub fn volume_set(&mut self, volume: u8)
        requires
            old(self).wf(),
        ensures
            final(self).wf(),
            final(self).queue_view() == old(self).queue_view(),
            final(self).pending() == old(self).pending().push(ActionView::SinkVolSet(volume)),
    {
        self.emit_sink(SinkRequest::VolSet(volume));
    }

    /// Asks the sink to seek by `seconds` (backwards when negative).
    pub fn seek_by(&mut self, seconds: isize)
        requires
            old(self).wf(),
        ensures
            final(self).wf(),
            final(self).queue_view() == old(self).queue_view(),
            final(self).pending() == old(self).pending().push(ActionView::SinkSeekBy(seconds)),
    {
        self.emit_sink(SinkRequest::SeekBy(seconds));
    }

    /// Asks the sink to seek to second `seconds` of the song.
    pub fn seek_to(&mut self, seconds: usize)
        requires
            old(self).wf(),
        ensures
            final(self).wf(),
            final(self).queue_view() == old(self).queue_view(),
            final(self).pending() == old(self).pending().push(ActionView::SinkSeekTo(seconds)),
    {
        self.emit_sink(SinkRequest::SeekTo(seconds));
    }

    /// Asks the sink to pause.
    pub fn pause(&mut self)
        requires
            old(self).wf(),
        ensures
            final(self).wf(),
            final(self).queue_view() == old(self).queue_view(),
            final(self).pending() == old(self).pending().push(ActionView::SinkPause),
    {
        self.emit_sink(SinkRequest::Pause);
    }

    /// Asks the sink to resume.
    pub fn resume(&mut self)
        requires
            old(self).wf(),
        ensures
            final(self).wf(),
            final(self).queue_view() == old(self).queue_view(),
            final(self).pending() == old(self).pending().push(ActionView::SinkResume),
    {
        self.emit_sink(SinkRequest::Resume);
    }

    /// Asks the sink to toggle between playing and paused.
    pub fn toggle(&mut self)
        requires
            old(self).wf(),
        ensures
            final(self).wf(),
            final(self).queue_view() == old(self).queue_view(),
            final(self).pending() == old(self).pending().push(ActionView::SinkToggle),
    {
        self.emit_sink(SinkRequest::Toggle);
    }

    fn play_current_or_stop(&mut self)
        requires
            old(self).wf(),
        ensures
            final(self).wf(),
            final(self).queue_view() == if old(self).queue_view().pos is Some {
                old(self).queue_view()
            } else {
                stopped(old(self).queue_view())
            },
            final(self).pending() == old(self).pending() + moved_actions(
                old(self).queue_view().list,
                old(self).queue_view().pos,
            ),
    {
        let cur = match self.queue.cur() {
            Some(uri) => Some(String::from_str(uri)),
            None => None,
        };
        match cur {
            Some(uri) => self.play_from_uri(uri),
            None => self.stop(),
        }
        self.notify_queue_pos();
    }

    /// Moves to the next song (see `Queue::move_to_next`) and plays it, or
    /// stops when there is none.
    pub fn next(&mut self)
        requires
            old(self).wf(),
        ensures
            final(self).wf(),
            ({
                let q0 = old(self).queue_view();
                let q = final(self).queue_view();
                &&& next_step(q0, q)
                &&& final(self).pending() == old(self).pending() + moved_actions(q.list, q.pos)
            }),
    {
        self.queue.move_to_next();
        self.play_current_or_stop();
    }

    /// Moves to the previous song (see `Queue::move_to_prev`) and plays it, or
    /// stops when there is none.
    pub fn prev(&mut self)
        requires
            old(self).wf(),
        ensures
            final(self).wf(),
            final(self).queue_view() == (QueueView {
                pos: prev_pos(old(self).queue_view().list, old(self).queue_view().pos),
                ..old(self).queue_view()
            }),
            final(self).pending() == old(self).pending() + moved_actions(
                final(self).queue_view().list,
                final(self).queue_view().pos,
            ),
    {
        self.queue.move_to_prev();
        self.play_current_or_stop();
    }

    /// Switches the queue to sequential mode and announces it.
    pub fn queue_seq(&mut self)
        requires
            old(self).wf(),
        ensures
            final(self).wf(),
            final(self).queue_view() == (QueueView { mode: QueueMode::Sequential, ..old(self).queue_view() }),
            final(self).pending() == old(self).pending().push(
                ActionView::Notify(PlayerSubTarget::Queue, EventView::QueueMode(QueueMode::Sequential)),
            ),
    {
        self.queue.set_mode_seq();
        self.notify_queue_mode();
    }

    /// Switches the queue to loop mode and announces it.
    pub fn queue_loop(&mut self)
        requires
            old(self).wf(),
        ensures
            final(self).wf(),
            final(self).queue_view() == (QueueView { mode: QueueMode::Loop, ..old(self).queue_view() }),
            final(self).pending() == old(self).pending().push(
                ActionView::Notify(PlayerSubTarget::Queue, EventView::QueueMode(QueueMode::Loop)),
            ),
    {
        self.queue.set_mode_loop();
        self.notify_queue_mode();
    }

    /// Switches the queue to single mode and announces it.
    pub fn queue_single(&mut self)
        requires
            old(self).wf(),
        ensures
            final(self).wf(),
            final(self).queue_view() == (QueueView { mode: QueueMode::Single, ..old(self).queue_view() }),
            final(self).pending() == old(self).pending().push(
                ActionView::Notify(PlayerSubTarget::Queue, EventView::QueueMode(QueueMode::Single)),
            ),
    {
        self.queue.set_mode_single();
        self.notify_queue_mode();
    }

    /// Empties the queue, stops the sink, and announces the position and the
    /// (empty) content.
    pub fn queue_clear(&mut self)
        requires
            old(self).wf(),
        ensures
            final(self).wf(),
            final(self).queue_view() == (QueueView {
                list: Seq::<Seq<char>>::empty(),
                pos: None,
                mode: old(self).queue_view().mode,
                available: Set::<Seq<char>>::empty(),
            }),
            final(self).pending() == old(self).pending() + seq![
                ActionView::SinkStop,
                ActionView::Notify(PlayerSubTarget::Queue, EventView::QueuePos(None)),
                ActionView::Notify(PlayerSubTarget::Queue, EventView::QueueContent(Seq::<Seq<char>>::empty())),
            ],
    {
        self.queue.clear();
        self.emit_sink(SinkRequest::Stop);
        self.notify_queue_pos();
        self.notify_queue_content();
    }

    /// Moves the song at `from` to `to` (the current song stays current) and
    /// announces the content and the position.
    pub fn queue_move(&mut self, from: usize, to: usize) -> (r: Result<(), QueueError>)
        requires
            old(self).wf(),
        ensures
            final(self).wf(),
            r == move_result(old(self).queue_view().list, from, to),
            r is Ok ==> final(self).queue_view() == (QueueView {
                list: moved_list(old(self).queue_view().list, from as int, to as int),
                pos: moved_pos(old(self).queue_view().pos, from as int, to as int),
                ..old(self).queue_view()
            }) && final(self).pending() == old(self).pending() + seq![
                ActionView::Notify(PlayerSubTarget::Queue, EventView::QueueContent(final(self).queue_view().list)),
                ActionView::Notify(PlayerSubTarget::Queue, EventView::QueuePos(final(self).queue_view().pos)),
            ],
            r is Err ==> final(self).queue_view() == old(self).queue_view() && final(self).pending()
                == old(self).pending(),
            r is Ok ==> (old(self).queue_view().pos matches Some(p) ==> (final(self).queue_view().pos matches Some(q)
                && final(self).queue_view().list[q] == old(self).queue_view().list[p])),
    {
        match self.queue.move_pos(from, to) {
            Ok(()) => {},
            Err(e) => return Err(e),
        }
        self.notify_queue_content();
        self.notify_queue_pos();
        Ok(())
    }

    /// Appends the songs, announces the new content and plays the first of
    /// them. An empty list changes nothing.
    pub fn add_and_play(&mut self, uris: Vec<String>)
        requires
            old(self).wf(),
        ensures
            final(self).wf(),
            uris.len() == 0 ==> final(self).queue_view() == old(self).queue_view() && final(self).pending()
                == old(self).pending(),
            uris.len() > 0 ==> {
                let q0 = old(self).queue_view();
                let q = final(self).queue_view();
                &&& q.list == q0.list + uri_views(uris@)
                &&& q.mode == q0.mode
                &&& q.available == if q0.mode == QueueMode::Random {
                    q0.available.union(uri_views(uris@).to_set())
                } else {
                    q0.available
                }
                &&& q.pos == Some(q0.list.len() as int)
                &&& final(self).pending() == old(self).pending().push(
                    ActionView::Notify(PlayerSubTarget::Queue, EventView::QueueContent(q.list)),
                ) + moved_actions(q.list, q.pos)
            },
    {
        if uris.len() == 0 {
            return;
        }
        self.queue.push_and_move_to(&uris);
        self.notify_queue_content();
        self.play_current_or_stop();
    }

    /// Switches the queue to random mode and announces it.
    pub fn queue_random(&mut self)
        requires
            old(self).wf(),
        ensures
            final(self).wf(),
            final(self).queue_view() == (QueueView {
                mode: QueueMode::Random,
                available: fresh_pool(old(self).queue_view().list, old(self).queue_view().pos),
                ..old(self).queue_view()
            }),
            final(self).pending() == old(self).pending().push(
                ActionView::Notify(PlayerSubTarget::Queue, EventView::QueueMode(QueueMode::Random)),
            ),
    {
        self.queue.set_mode_random();
        self.notify_queue_mode();
    }

    /// Reacts to a report of the sink: the next song when one is over,
    /// otherwise an announcement to the sink's subscribers.
    pub fn handle_sink_response(&mut self, response: SinkResponse)
        requires
            old(self).wf(),
        ensures
            final(self).wf(),
            response is SongOver ==> next_step(old(self).queue_view(), final(self).queue_view()),
            response is SongOver ==> final(self).pending() == old(self).pending() + moved_actions(
                final(self).queue_view().list,
                final(self).queue_view().pos,
            ),
            match response {
                SinkResponse::SongOver => true,
                SinkResponse::StateChanged(s) => final(self).pending() == old(self).pending().push(
                    ActionView::Notify(PlayerSubTarget::Sink, EventView::PlaybackState(s)),
                ),
                SinkResponse::VolumeChanged(v) => final(self).pending() == old(self).pending().push(
                    ActionView::Notify(PlayerSubTarget::Sink, EventView::Volume(v)),
                ),
                SinkResponse::Elapsed(s) => final(self).pending() == old(self).pending().push(
                    ActionView::Notify(PlayerSubTarget::Sink, EventView::Elapsed(s)),
                ),
            },
            !(response is SongOver) ==> final(self).queue_view() == old(self).queue_view(),
    {
        match response {
            SinkResponse::SongOver => self.next(),
            SinkResponse::StateChanged(state) => self.notify_playback_state(state),
            SinkResponse::VolumeChanged(volume) => self.notify_volume(Volume(volume)),
            SinkResponse::Elapsed(seconds) => self.notify_elapsed(seconds),
        }
    }
}

} // verus!
