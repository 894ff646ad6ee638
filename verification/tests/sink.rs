use foksal::audio::sink::{Sink, SinkRequest, SinkState, REQUEST_SIZE};
use foksal::common::audio::{AudioSpec, AUDIO_BUF_LEN};
use foksal::common::net::request::{DbSubTarget, PlayerSubTarget};
use foksal::common::net::subscribers::{ClientSet, DbSubscribers, PlayerSubscribers};

#[test]
fn sink_starts_stopped_without_song() {
    let sink = Sink::new();
    assert_eq!(sink.state(), SinkState::Stopped);
    assert_eq!(sink.current_song(), None);
    assert!(!sink.wants_samples());
}

#[test]
fn sink_play_then_pause_resume_toggle() {
    let mut sink = Sink::new();
    sink.handle_request(SinkRequest::Play("a.flac".to_string()));
    assert_eq!(sink.state(), SinkState::Playing);
    assert_eq!(sink.current_song(), Some("a.flac".to_string()));
    sink.handle_request(SinkRequest::Pause);
    assert_eq!(sink.state(), SinkState::Paused);
    sink.handle_request(SinkRequest::Pause);
    assert_eq!(sink.state(), SinkState::Paused);
    sink.handle_request(SinkRequest::Resume);
    assert_eq!(sink.state(), SinkState::Playing);
    sink.handle_request(SinkRequest::Toggle);
    assert_eq!(sink.state(), SinkState::Paused);
    sink.handle_request(SinkRequest::VolSet(40));
    assert_eq!(sink.state(), SinkState::Paused);
    sink.handle_request(SinkRequest::Stop);
    assert_eq!(sink.state(), SinkState::Stopped);
    assert_eq!(sink.current_song(), None);
    sink.handle_request(SinkRequest::Toggle);
    assert_eq!(sink.state(), SinkState::Stopped);
}

#[test]
fn sink_state_names() {
    assert_eq!(SinkState::Stopped.name(), "stopped");
    assert_eq!(SinkState::Playing.name(), "playing");
    assert_eq!(SinkState::Paused.name(), "paused");
}

#[test]
fn sink_requests_plays_and_finishes_a_song() {
    let mut sink = Sink::new();
    sink.handle_request(SinkRequest::Play("b.mp3".to_string()));
    assert!(sink.wants_samples());
    let (uri, start, end) = sink.request_more_samples();
    assert_eq!(uri, "b.mp3");
    assert_eq!(start, 0);
    assert_eq!(end, REQUEST_SIZE * AUDIO_BUF_LEN);
    assert!(!sink.wants_samples());
    assert!(sink.expects_chunk());

    sink.append_samples(10, AudioSpec::new(2, 44100), false);
    assert!(sink.wants_samples());
    assert_eq!(sink.next_window(4), Some((0, 3)));
    assert!(!sink.consumed(3));
    assert_eq!(sink.next_window(100), Some((4, 9)));

    let (_, start, _) = sink.request_more_samples();
    assert_eq!(start, 10);
    sink.append_samples(2, AudioSpec::new(1, 8000), true);
    assert!(!sink.wants_samples());
    assert!(!sink.expects_chunk());
    assert_eq!(sink.next_window(100), Some((4, 11)));
    assert!(sink.consumed(11));
    assert_eq!(sink.state(), SinkState::Stopped);
    assert_eq!(sink.next_window(1), None);
}

#[test]
fn sink_paused_plays_nothing() {
    let mut sink = Sink::new();
    sink.handle_request(SinkRequest::Play("c".to_string()));
    sink.append_samples(5, AudioSpec::new(2, 48000), false);
    sink.handle_request(SinkRequest::Pause);
    assert_eq!(sink.next_window(2), None);
    sink.err_and_stop();
    assert_eq!(sink.state(), SinkState::Stopped);
}

#[test]
fn client_set_insert_remove() {
    let mut set = ClientSet::new();
    assert!(!set.contains(3));
    set.insert(3);
    set.insert(5);
    set.insert(3);
    assert!(set.contains(3));
    assert!(set.contains(5));
    let mut ids = set.to_vec();
    ids.sort();
    assert_eq!(ids, vec![3, 5]);
    set.remove(3);
    assert!(!set.contains(3));
    assert_eq!(set.to_vec(), vec![5]);
}

#[test]
fn player_subscribers_by_target() {
    let mut subs = PlayerSubscribers::new();
    subs.add(PlayerSubTarget::Queue, 1);
    subs.add(PlayerSubTarget::Sink, 2);
    subs.add(PlayerSubTarget::Queue, 1);
    assert_eq!(subs.recipients(PlayerSubTarget::Queue), vec![1]);
    assert_eq!(subs.recipients(PlayerSubTarget::Sink), vec![2]);
    subs.remove(PlayerSubTarget::Queue, 1);
    assert!(subs.recipients(PlayerSubTarget::Queue).is_empty());
    assert_eq!(subs.recipients(PlayerSubTarget::Sink), vec![2]);
}

#[test]
fn db_subscribers_update() {
    let mut subs = DbSubscribers::new();
    subs.add(DbSubTarget::Update, 7);
    subs.add(DbSubTarget::Update, 8);
    let mut r = subs.recipients(DbSubTarget::Update);
    r.sort();
    assert_eq!(r, vec![7, 8]);
    subs.remove(DbSubTarget::Update, 7);
    assert_eq!(subs.recipients(DbSubTarget::Update), vec![8]);
}
