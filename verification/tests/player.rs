use foksal::audio::player::{Player, PlayerAction, PlayerEvent};
use foksal::audio::sink::{SinkRequest, SinkResponse};
use foksal::audio::volume::Volume;
use foksal::common::net::request::{
    PlayerSubTarget, RawAddAndPlayArgs, RawAddToQueueArgs, RawPlayArgs, RawPlayerRequest, RawQueueMoveArgs,
};
use foksal::audio::sink::SinkState;
use foksal::common::json::JsonValue;

fn player_with(n: usize) -> Player {
    let mut p = Player::new();
    for i in 0..n {
        p.add_to_queue(format!("song{}", i), None).unwrap();
    }
    let _ = p.take_actions();
    p
}

#[test]
fn play_starts_the_song_and_tells_subscribers() {
    let mut p = player_with(3);
    p.play(1).unwrap();
    assert_eq!(p.cur_song(), Some("song1"));
    let actions = p.take_actions();
    assert!(actions.iter().any(|a| matches!(a, PlayerAction::Sink(SinkRequest::Play(u)) if u == "song1")));
    assert!(actions.iter().any(|a| matches!(
        a,
        PlayerAction::Notify(PlayerSubTarget::Queue, PlayerEvent::QueuePos { pos: Some(1) })
    )));
    assert!(p.take_actions().is_empty());
}

#[test]
fn play_out_of_bounds_changes_nothing() {
    let mut p = player_with(2);
    assert!(p.play(5).is_err());
    assert_eq!(p.cur_song(), None);
    assert!(p.take_actions().is_empty());
}

#[test]
fn adding_notifies_queue_content() {
    let mut p = Player::new();
    p.add_to_queue("a".to_string(), None).unwrap();
    p.add_to_queue("b".to_string(), Some(0)).unwrap();
    assert!(p.add_to_queue("c".to_string(), Some(5)).is_err());
    assert_eq!(p.queue().list_cloned(), vec!["b".to_string(), "a".to_string()]);
    let actions = p.take_actions();
    assert_eq!(actions.len(), 2);
    match &actions[1] {
        PlayerAction::Notify(PlayerSubTarget::Queue, PlayerEvent::QueueContent { queue }) => {
            assert_eq!(queue, &vec!["b".to_string(), "a".to_string()])
        }
        other => panic!("unexpected action {:?}", other),
    }
}

#[test]
fn removing_the_playing_song_stops_playback() {
    let mut p = player_with(3);
    p.play(0).unwrap();
    let _ = p.take_actions();
    p.remove_from_queue(0).unwrap();
    assert_eq!(p.cur_song(), None);
    let actions = p.take_actions();
    assert!(matches!(actions[0], PlayerAction::Sink(SinkRequest::Stop)));
}

#[test]
fn next_walks_the_queue() {
    let mut p = player_with(2);
    p.next();
    assert_eq!(p.cur_song(), Some("song0"));
    p.next();
    assert_eq!(p.cur_song(), Some("song1"));
    p.next();
    assert_eq!(p.cur_song(), None);
}

#[test]
fn volume_stays_within_bounds() {
    let mut v = Volume::default();
    assert_eq!(v.0, 50);
    v.change(100);
    assert_eq!(v.0, 100);
    v.change(-128);
    assert_eq!(v.0, 0);
    v.set(250);
    assert_eq!(v.0, 100);
    v.set(42);
    assert_eq!(v.0, 42);
}

#[test]
fn raw_requests_answer_ok_or_error() {
    let mut p = Player::new();
    let r = p
        .handle_raw_request(RawPlayerRequest::AddToQueue(RawAddToQueueArgs { uri: "x".to_string(), pos: None }))
        .unwrap();
    assert!(matches!(r.inner().get("ok"), Some(JsonValue::Bool(true))));
    let r = p.handle_raw_request(RawPlayerRequest::Play(RawPlayArgs { pos: 4 })).unwrap();
    assert!(matches!(r.inner().get("ok"), Some(JsonValue::Bool(false))));
    assert!(matches!(
        r.inner().get("reason"),
        Some(JsonValue::String(s)) if s == "index 4 out of bounds (length: 1)"
    ));
    assert!(p.handle_raw_request(RawPlayerRequest::State).is_none());
    assert!(p.handle_raw_request(RawPlayerRequest::Subscribe(PlayerSubTarget::Queue)).is_none());
}

#[test]
fn state_reports_queue_and_sink() {
    let mut p = player_with(2);
    p.play(0).unwrap();
    let r = p.req_state(SinkState::Playing, 70, 12);
    let o = r.inner();
    assert!(matches!(o.get("ok"), Some(JsonValue::Bool(true))));
    assert!(matches!(o.get("current_song"), Some(JsonValue::String(s)) if s == "song0"));
    assert!(matches!(o.get("queue_pos"), Some(JsonValue::Number(n)) if n.as_u64() == Some(0)));
    assert!(matches!(o.get("sink_state"), Some(JsonValue::String(s)) if s == "playing"));
    assert!(matches!(o.get("volume"), Some(JsonValue::Number(n)) if n.as_u64() == Some(70)));
    assert!(matches!(o.get("elapsed"), Some(JsonValue::Number(n)) if n.as_u64() == Some(12)));
    match o.get("queue") {
        Some(JsonValue::Array(a)) => assert_eq!(a.len(), 2),
        _ => panic!("queue missing"),
    }
}

#[test]
fn song_over_moves_to_the_next_song() {
    let mut p = player_with(3);
    p.play(0).unwrap();
    let _ = p.take_actions();
    p.handle_sink_response(SinkResponse::SongOver);
    assert_eq!(p.cur_song(), Some("song1"));
    let actions = p.take_actions();
    assert!(actions.iter().any(|a| matches!(a, PlayerAction::Sink(SinkRequest::Play(u)) if u == "song1")));
    p.play(2).unwrap();
    p.handle_sink_response(SinkResponse::SongOver);
    assert_eq!(p.cur_song(), None);
}

#[test]
fn next_and_prev_requests_move_and_answer_ok() {
    let mut p = player_with(3);
    let r = p.req_next();
    assert!(matches!(r.inner().get("ok"), Some(JsonValue::Bool(true))));
    assert_eq!(p.cur_song(), Some("song0"));
    p.handle_raw_request(RawPlayerRequest::Next).unwrap();
    assert_eq!(p.cur_song(), Some("song1"));
    let r = p.req_prev();
    assert!(matches!(r.inner().get("ok"), Some(JsonValue::Bool(true))));
    assert_eq!(p.cur_song(), Some("song0"));
    p.handle_raw_request(RawPlayerRequest::Prev).unwrap();
    assert_eq!(p.cur_song(), None);
    p.handle_raw_request(RawPlayerRequest::QueueRandom).unwrap();
    assert!(matches!(
        p.take_actions().last(),
        Some(PlayerAction::Notify(PlayerSubTarget::Queue, PlayerEvent::QueueMode { .. }))
    ));
}

#[test]
fn queue_move_clear_and_add_and_play() {
    let mut p = player_with(3);
    p.play(0).unwrap();
    let _ = p.take_actions();
    p.queue_move(0, 2).unwrap();
    assert_eq!(p.cur_song(), Some("song0"));
    assert_eq!(p.queue().pos(), Some(2));
    let actions = p.take_actions();
    assert_eq!(actions.len(), 2);
    assert!(p.queue_move(5, 0).is_err());
    assert!(p.take_actions().is_empty());

    let r = p
        .handle_raw_request(RawPlayerRequest::AddAndPlay(RawAddAndPlayArgs { uris: vec!["new".to_string()] }))
        .unwrap();
    assert!(matches!(r.inner().get("ok"), Some(JsonValue::Bool(true))));
    assert_eq!(p.cur_song(), Some("new"));
    let actions = p.take_actions();
    assert!(actions.iter().any(|a| matches!(a, PlayerAction::Sink(SinkRequest::Play(u)) if u == "new")));

    let r = p
        .handle_raw_request(RawPlayerRequest::QueueMove(RawQueueMoveArgs { from: 9, to: 0 }))
        .unwrap();
    assert!(matches!(
        r.inner().get("reason"),
        Some(JsonValue::String(s)) if s == "index 9 out of bounds (length: 4)"
    ));

    p.handle_raw_request(RawPlayerRequest::QueueLoop).unwrap();
    p.handle_sink_response(SinkResponse::SongOver);
    assert_eq!(p.cur_song(), Some("new"));
    p.handle_raw_request(RawPlayerRequest::QueueSingle).unwrap();
    p.handle_sink_response(SinkResponse::SongOver);
    assert_eq!(p.cur_song(), None);

    let _ = p.take_actions();
    p.handle_raw_request(RawPlayerRequest::QueueClear).unwrap();
    assert!(p.queue().list().is_empty());
    let actions = p.take_actions();
    assert!(matches!(actions[0], PlayerAction::Sink(SinkRequest::Stop)));
    assert_eq!(actions.len(), 3);
}
