//! The sink's decisions: its playback state, which samples to ask the decoder
//! for, and which samples to play next. The sample data, the resampler and the
//! audio device are driven by the caller, which reports back here.

use vstd::prelude::*;

use crate::common::audio::{AudioSpec, AUDIO_BUF_LEN};

verus! {

/// How many audio buffers one request for samples asks for.
pub const REQUEST_SIZE: usize = 8;

/// Errors reported to clients while playing.
#[derive(Debug, PartialEq, Eq)]
pub enum SinkError {
    Decoder { reason: String },
    Resampler { reason: String },
}

/// Playback state of the sink.
#[derive(Clone, Copy, Debug, PartialEq, Eq, Structural)]
pub enum SinkState {
    Stopped,
    Playing,
    Paused,
}

impl Default for SinkState {
    fn default() -> (s: Self)
        ensures
            s == SinkState::Stopped,
    {
        SinkState::Stopped
    }
}

impl SinkState {
    /// The state's name as clients see it.
    pub fn name(&self) -> (r: &'static str)
        ensures
            r@ == sink_state_name(*self),
    {
        match *self {
            SinkState::Stopped => "stopped",
            SinkState::Playing => "playing",
            SinkState::Paused => "paused",
        }
    }
}

pub open spec fn sink_state_name(s: SinkState) -> Seq<char> {
    match s {
        SinkState::Stopped => "stopped"@,
        SinkState::Playing => "playing"@,
        SinkState::Paused => "paused"@,
    }
}

/// Commands the player sends to the sink (queries are answered by `state`
/// and `current_song`).
#[derive(Debug)]
pub enum SinkRequest {
    Play(String),
    Stop,
    Pause,
    Resume,
    Toggle,
    VolChange(i8),
    VolSet(u8),
    SeekBy(isize),
    SeekTo(usize),
}

/// What the sink reports to the player.
#[derive(Debug)]
pub enum SinkResponse {
    SongOver,
    StateChanged(SinkState),
    VolumeChanged(u8),
    Elapsed(u64),
}

/// The state after a transport command.
pub open spec fn next_state(s: SinkState, req: SinkRequest) -> SinkState {
    match req {
        SinkRequest::Play(_) => SinkState::Playing,
        SinkRequest::Stop => SinkState::Stopped,
        SinkRequest::Pause => if s == SinkState::Playing {
            SinkState::Paused
        } else {
            s
        },
        SinkRequest::Resume => if s == SinkState::Paused {
            SinkState::Playing
        } else {
            s
        },
        SinkRequest::Toggle => match s {
            SinkState::Paused => SinkState::Playing,
            SinkState::Playing => SinkState::Paused,
            SinkState::Stopped => SinkState::Stopped,
        },
        _ => s,
    }
}

/// A step that leaves a stopped sink stopped: every operation of the sink
/// but `Play`, and playing a window while not playing.
pub open spec fn quiet_step(pre: SinkState, post: SinkState) -> bool {
    pre == SinkState::Stopped ==> post == SinkState::Stopped
}

/// Playing a window of samples: only while playing; the sink stops exactly
/// when it reports the song over.
pub open spec fn window_step(pre: SinkState, post: SinkState, over: bool) -> bool {
    &&& pre == SinkState::Playing
    &&& post == if over {
        SinkState::Stopped
    } else {
        SinkState::Playing
    }
}

/// What the transport commands do: `Toggle` swaps playing and paused (twice
/// gives back the state it started from) and leaves a stopped sink alone;
/// `Pause` pauses a playing sink, `Resume` resumes a paused one, `Stop`
/// always stops and `Play` always plays.
pub proof fn lemma_transport_commands(s: SinkState)
    ensures
        next_state(SinkState::Paused, SinkRequest::Toggle) == SinkState::Playing,
        next_state(SinkState::Playing, SinkRequest::Toggle) == SinkState::Paused,
        next_state(SinkState::Stopped, SinkRequest::Toggle) == SinkState::Stopped,
        s != SinkState::Stopped ==> next_state(s, SinkRequest::Toggle) != s,
        next_state(next_state(s, SinkRequest::Toggle), SinkRequest::Toggle) == s,
        next_state(SinkState::Playing, SinkRequest::Pause) == SinkState::Paused,
        next_state(SinkState::Paused, SinkRequest::Resume) == SinkState::Playing,
        s != SinkState::Playing ==> next_state(s, SinkRequest::Pause) == s,
        s != SinkState::Paused ==> next_state(s, SinkRequest::Resume) == s,
        next_state(s, SinkRequest::Stop) == SinkState::Stopped,
        forall|u: String| next_state(s, SinkRequest::Play(u)) == SinkState::Playing,
{
}

/// Once stopped, a sink stays stopped until the next `Play`: pausing, resuming,
/// toggling, stopping, volume and seek commands leave a stopped sink stopped.
pub proof fn lemma_stopped_until_play(req: SinkRequest)
    ensures
        !(req is Play) ==> next_state(SinkState::Stopped, req) == SinkState::Stopped,
{
}

/// The end of a song is reported at most once per `Play`: in a run of sink
/// states where every step is a played window (reporting `overs[k]`) or
/// another operation but `Play`, at most one window reports the song over,
/// and after it the sink is stopped for the rest of the run.
pub proof fn lemma_song_over_once_per_play(states: Seq<SinkState>, windows: Seq<bool>, overs: Seq<bool>)
    requires
        states.len() == windows.len() + 1,
        overs.len() == windows.len(),
        forall|k: int| 0 <= k < windows.len() && #[trigger] windows[k] ==> window_step(states[k], states[k + 1], overs[k]),
        forall|k: int| 0 <= k < windows.len() && !#[trigger] windows[k] ==> quiet_step(states[k], states[k + 1]),
    ensures
        forall|i: int, j: int|
            #![trigger windows[i], windows[j]]
            0 <= i < j < windows.len() && windows[i] && overs[i] ==> !(windows[j] && overs[j]),
        forall|i: int, j: int|
            #![trigger windows[i], states[j]]
            0 <= i < windows.len() && i < j < states.len() && windows[i] && overs[i] ==> states[j]
                == SinkState::Stopped,
{
    assert forall|i: int, j: int|
        #![trigger windows[i], states[j]]
        0 <= i < windows.len() && i < j < states.len() && windows[i] && overs[i] implies states[j]
            == SinkState::Stopped by {
        lemma_stays_stopped(states, windows, overs, i + 1, j);
    }
    assert forall|i: int, j: int|
        #![trigger windows[i], windows[j]]
        0 <= i < j < windows.len() && windows[i] && overs[i] implies !(windows[j] && overs[j]) by {
        lemma_stays_stopped(states, windows, overs, i + 1, j);
        if windows[j] {
            assert(window_step(states[j], states[j + 1], overs[j]));
        }
    }
}

proof fn lemma_stays_stopped(states: Seq<SinkState>, windows: Seq<bool>, overs: Seq<bool>, a: int, b: int)
    requires
        states.len() == windows.len() + 1,
        overs.len() == windows.len(),
        forall|k: int| 0 <= k < windows.len() && #[trigger] windows[k] ==> window_step(states[k], states[k + 1], overs[k]),
        forall|k: int| 0 <= k < windows.len() && !#[trigger] windows[k] ==> quiet_step(states[k], states[k + 1]),
        1 <= a <= b < states.len(),
        windows[a - 1] && overs[a - 1],
    ensures
        states[b] == SinkState::Stopped,
    decreases b - a,
{
    if b == a {
        assert(window_step(states[a - 1], states[a], overs[a - 1]));
    } else {
        lemma_stays_stopped(states, windows, overs, a, b - 1);
        if windows[b - 1] {
            assert(window_step(states[b - 1], states[b], overs[b - 1]));
        } else {
            assert(quiet_step(states[b - 1], states[b]));
        }
    }
}

/// The sink's bookkeeping for the current song.
pub struct Sink {
    state: SinkState,
    uri: String,
    audio_spec: Option<AudioSpec>,
    /// Samples received so far.
    n_samples: usize,
    /// Index of the next sample to play.
    ptr: usize,
    /// The decoder has sent the last chunk.
    got_all: bool,
    /// A request for samples is outstanding.
    awaiting_chunk: bool,
}

impl Sink {
    pub closed spec fn spec_state(&self) -> SinkState {
        self.state
    }

    pub closed spec fn spec_uri(&self) -> Seq<char> {
        self.uri@
    }

    pub closed spec fn spec_n_samples(&self) -> nat {
        self.n_samples as nat
    }

    pub closed spec fn spec_ptr(&self) -> nat {
        self.ptr as nat
    }

    pub closed spec fn spec_got_all(&self) -> bool {
        self.got_all
    }

    pub closed spec fn spec_awaiting(&self) -> bool {
        self.awaiting_chunk
    }

    pub closed spec fn spec_audio_spec(&self) -> Option<AudioSpec> {
        self.audio_spec
    }

    /// Never plays past the samples it has.
    pub closed spec fn wf(&self) -> bool {
        self.ptr <= self.n_samples
    }

    /// A stopped sink with no song.
    pub fn new() -> (s: Sink)
        ensures
            s.wf(),
            s.spec_state() == SinkState::Stopped,
            s.spec_uri() == Seq::<char>::empty(),
            s.spec_n_samples() == 0,
            s.spec_ptr() == 0,
            !s.spec_got_all(),
            !s.spec_awaiting(),
            s.spec_audio_spec() is None,
    {
        Sink {
            state: SinkState::Stopped,
            uri: String::new(),
            audio_spec: None,
            n_samples: 0,
            ptr: 0,
            got_all: false,
            awaiting_chunk: false,
        }
    }

    /// The playback state.
    pub fn state(&self) -> (r: SinkState)
        ensures
            r == self.spec_state(),
    {
        self.state
    }

    /// The song being played or paused; none when stopped.
    pub fn current_song(&self) -> (r: Option<String>)
        ensures
            self.spec_state() == SinkState::Stopped ==> r is None,
            self.spec_state() != SinkState::Stopped ==> (r matches Some(u) && u@ == self.spec_uri()),
    {
        match self.state {
            SinkState::Stopped => None,
            _ => Some(self.uri.clone()),
        }
    }

    /// Applies a transport command. `Play` starts a new song from scratch;
    /// the volume and seek commands leave the state alone.
    pub fn handle_request(&mut self, request: SinkRequest)
        requires
            old(self).wf(),
        ensures
            final(self).wf(),
            final(self).spec_state() == next_state(old(self).spec_state(), request),
            !(request is Play) ==> quiet_step(old(self).spec_state(), final(self).spec_state()),
            (request is Toggle && old(self).spec_state() == SinkState::Paused) ==> final(self).spec_state()
                == SinkState::Playing,
            (request is Toggle && old(self).spec_state() == SinkState::Playing) ==> final(self).spec_state()
                == SinkState::Paused,
            (request is Pause && old(self).spec_state() == SinkState::Playing) ==> final(self).spec_state()
                == SinkState::Paused,
            (request is Resume && old(self).spec_state() == SinkState::Paused) ==> final(self).spec_state()
                == SinkState::Playing,
            request is Stop ==> final(self).spec_state() == SinkState::Stopped,
            request is Play ==> final(self).spec_state() == SinkState::Playing,
            request matches SinkRequest::Play(u) ==> {
                &&& final(self).spec_uri() == u@
                &&& final(self).spec_n_samples() == 0
                &&& final(self).spec_ptr() == 0
                &&& !final(self).spec_got_all()
                &&& !final(self).spec_awaiting()
                &&& final(self).spec_audio_spec() is None
            },
            !(request is Play) ==> {
                &&& final(self).spec_uri() == old(self).spec_uri()
                &&& final(self).spec_n_samples() == old(self).spec_n_samples()
                &&& final(self).spec_ptr() == old(self).spec_ptr()
                &&& final(self).spec_got_all() == old(self).spec_got_all()
                &&& final(self).spec_awaiting() == old(self).spec_awaiting()
                &&& final(self).spec_audio_spec() == old(self).spec_audio_spec()
            },
    {
        match request {
            SinkRequest::Play(uri) => {
                self.state = SinkState::Playing;
                self.uri = uri;
                self.audio_spec = None;
                self.n_samples = 0;
                self.ptr = 0;
                self.got_all = false;
                self.awaiting_chunk = false;
            },
            SinkRequest::Pause => {
                if self.state == SinkState::Playing {
                    self.state = SinkState::Paused;
                }
            },
            SinkRequest::Resume => {
                if self.state == SinkState::Paused {
                    self.state = SinkState::Playing;
                }
            },
            SinkRequest::Toggle => {
                self.state = match self.state {
                    SinkState::Paused => SinkState::Playing,
                    SinkState::Playing => SinkState::Paused,
                    SinkState::Stopped => SinkState::Stopped,
                };
            },
            SinkRequest::Stop => {
                self.state = SinkState::Stopped;
            },
            _ => {},
        }
    }

    /// Stops playback after an error (the caller reports the error).
    pub fn err_and_stop(&mut self)
        requires
            old(self).wf(),
        ensures
            final(self).wf(),
            final(self).spec_state() == SinkState::Stopped,
            quiet_step(old(self).spec_state(), final(self).spec_state()),
            final(self).spec_uri() == old(self).spec_uri(),
            final(self).spec_n_samples() == old(self).spec_n_samples(),
            final(self).spec_ptr() == old(self).spec_ptr(),
            final(self).spec_got_all() == old(self).spec_got_all(),
            final(self).spec_awaiting() == old(self).spec_awaiting(),
            final(self).spec_audio_spec() == old(self).spec_audio_spec(),
    {
        self.state = SinkState::Stopped;
    }

    /// Whether more samples should be requested now: the sink is not
    /// stopped, the song is not fully received and no request is outstanding.
    pub fn wants_samples(&self) -> (r: bool)
        ensures
            r == (self.spec_state() != SinkState::Stopped && !self.spec_got_all() && !self.spec_awaiting()),
    {
        self.state != SinkState::Stopped && !self.got_all && !self.awaiting_chunk
    }

    /// Whether a requested chunk is outstanding and still useful.
    pub fn expects_chunk(&self) -> (r: bool)
        ensures
            r == (self.spec_state() != SinkState::Stopped && !self.spec_got_all() && self.spec_awaiting()),
    {
        self.state != SinkState::Stopped && !self.got_all && self.awaiting_chunk
    }

    /// Records a request for more samples and returns the song and the sample
    /// range `start..end` asked for: from the first sample not received yet,
    /// `REQUEST_SIZE` buffers long.
    pub fn request_more_samples(&mut self) -> (r: (String, usize, usize))
        requires
            old(self).wf(),
            old(self).spec_n_samples() + REQUEST_SIZE * AUDIO_BUF_LEN <= usize::MAX,
        ensures
            final(self).wf(),
            r.0@ == old(self).spec_uri(),
            r.1 == old(self).spec_n_samples(),
            r.2 == old(self).spec_n_samples() + REQUEST_SIZE * AUDIO_BUF_LEN,
            final(self).spec_awaiting(),
            final(self).spec_state() == old(self).spec_state(),
            final(self).spec_uri() == old(self).spec_uri(),
            final(self).spec_n_samples() == old(self).spec_n_samples(),
            final(self).spec_ptr() == old(self).spec_ptr(),
            final(self).spec_got_all() == old(self).spec_got_all(),
            final(self).spec_audio_spec() == old(self).spec_audio_spec(),
    {
        let start = self.n_samples;
        let end = start + REQUEST_SIZE * AUDIO_BUF_LEN;
        self.awaiting_chunk = true;
        (self.uri.clone(), start, end)
    }

    /// Records a received chunk of `n_new` samples with the given format; the
    /// first format received stays.
    pub fn append_samples(&mut self, n_new: usize, spec: AudioSpec, is_final: bool)
        requires
            old(self).wf(),
            old(self).spec_n_samples() + n_new <= usize::MAX,
        ensures
            final(self).wf(),
            final(self).spec_n_samples() == old(self).spec_n_samples() + n_new,
            final(self).spec_got_all() == (old(self).spec_got_all() || is_final),
            final(self).spec_audio_spec() == match old(self).spec_audio_spec() {
                Some(a) => Some(a),
                None => Some(spec),
            },
            !final(self).spec_awaiting(),
            final(self).spec_state() == old(self).spec_state(),
            final(self).spec_uri() == old(self).spec_uri(),
            final(self).spec_ptr() == old(self).spec_ptr(),
    {
        if self.audio_spec.is_none() {
            self.audio_spec = Some(spec);
        }
        self.n_samples = self.n_samples + n_new;
        if is_final {
            self.got_all = true;
        }
        self.awaiting_chunk = false;
    }

    /// The samples `start..=end` to play next when playing: at most
    /// `input_len` of them, from the first unplayed one.
    pub fn next_window(&self, input_len: usize) -> (r: Option<(usize, usize)>)
        requires
            self.wf(),
            input_len >= 1,
            self.spec_ptr() + input_len <= usize::MAX,
        ensures
            (self.spec_state() == SinkState::Playing && self.spec_ptr() < self.spec_n_samples()) <==> r is Some,
            r matches Some(w) ==> {
                &&& w.0 == self.spec_ptr()
                &&& w.1 == if self.spec_ptr() + input_len - 1 < self.spec_n_samples() - 1 {
                    self.spec_ptr() + input_len - 1
                } else {
                    self.spec_n_samples() - 1
                }
            },
    {
        if self.state == SinkState::Playing && self.ptr < self.n_samples {
            let a = self.ptr + input_len - 1;
            let b = self.n_samples - 1;
            Some((self.ptr, if a < b { a } else { b }))
        } else {
            None
        }
    }

    /// Marks the samples up to `end` as played. Returns whether the song is
    /// over (everything received and played), in which case the sink stops.
    pub fn consumed(&mut self, end: usize) -> (over: bool)
        requires
            old(self).wf(),
            end < old(self).spec_n_samples(),
        ensures
            final(self).wf(),
            final(self).spec_ptr() == end + 1,
            over == (end + 1 >= old(self).spec_n_samples() && old(self).spec_got_all()),
            final(self).spec_state() == if over {
                SinkState::Stopped
            } else {
                old(self).spec_state()
            },
            old(self).spec_state() == SinkState::Playing ==> window_step(old(self).spec_state(), final(self).spec_state(), over),
            old(self).spec_state() != SinkState::Playing ==> quiet_step(old(self).spec_state(), final(self).spec_state()),
            final(self).spec_uri() == old(self).spec_uri(),
            final(self).spec_n_samples() == old(self).spec_n_samples(),
            final(self).spec_got_all() == old(self).spec_got_all(),
            final(self).spec_awaiting() == old(self).spec_awaiting(),
            final(self).spec_audio_spec() == old(self).spec_audio_spec(),
    {
        self.ptr = end + 1;
        if self.ptr >= self.n_samples && self.got_all {
            self.state = SinkState::Stopped;
            true
        } else {
            false
        }
    }
}

} // verus!
