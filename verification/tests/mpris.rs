use foksal::audio::mpris::{
    convert_metadata, current_track, loop_status, mode_properties, mpris_tags, playback_property,
    playback_status, shuffle, MprisLoop, MprisPlayback,
};
use foksal::audio::queue::QueueMode;
use foksal::audio::sink::SinkState;
use foksal::common::json::{JsonNumber, JsonObject, JsonValue};

fn obj(items: Vec<(&str, JsonValue)>) -> JsonObject {
    let mut o = JsonObject::new();
    for (k, v) in items {
        o.insert(k.to_string(), v);
    }
    o
}

fn text(s: &str) -> JsonValue {
    JsonValue::String(s.to_string())
}

#[test]
fn track_metadata_is_read_from_the_answer() {
    let item = JsonValue::Object(obj(vec![
        ("album", text("Awake")),
        ("albumartist", text("ILLENIUM")),
        ("discnumber", text("1")),
        ("duration", JsonValue::Number(JsonNumber::from_u64(237))),
        ("tracknumber", JsonValue::Number(JsonNumber::from_u64(4))),
        ("genre", JsonValue::Null),
    ]));
    let t = convert_metadata("/org/foksal/track/1".to_string(), &item).unwrap();
    assert_eq!(t.album.as_deref(), Some("Awake"));
    assert_eq!(t.album_artist.as_deref(), Some("ILLENIUM"));
    assert_eq!(t.disc_number, None);
    assert_eq!(t.length, Some(237));
    assert_eq!(t.track_number, Some(4));
    assert_eq!(t.genre, None);
    assert_eq!(t.track_id, "/org/foksal/track/1");
    assert_eq!(convert_metadata("x".to_string(), &JsonValue::Null).err().unwrap(), "metadata deserialization");
}

#[test]
fn state_is_shown_as_mpris_values() {
    let state = obj(vec![
        ("playback_state", text("paused")),
        ("queue_mode", text("random")),
        ("current_song", text("a.flac")),
        ("current_song_id", JsonValue::Number(JsonNumber::from_u64(7))),
    ]);
    assert_eq!(playback_status(&state).unwrap(), MprisPlayback::Paused);
    assert_eq!(loop_status(&state).unwrap(), MprisLoop::Off);
    assert!(shuffle(&state).unwrap());
    assert_eq!(current_track(&state), Some(("a.flac".to_string(), 7)));
    let empty = JsonObject::new();
    assert_eq!(playback_status(&empty).unwrap_err(), "playback_status deserialization");
    assert_eq!(current_track(&empty), None);
    assert_eq!(mode_properties(QueueMode::Random), (true, MprisLoop::Off));
    assert_eq!(playback_property(SinkState::Playing), MprisPlayback::Playing);
    assert_eq!(mpris_tags().len(), 9);
}

#[test]
fn every_queue_mode_has_mpris_properties() {
    assert_eq!(mode_properties(QueueMode::Sequential), (false, MprisLoop::Off));
    assert_eq!(mode_properties(QueueMode::Loop), (false, MprisLoop::Track));
    assert_eq!(mode_properties(QueueMode::Random), (true, MprisLoop::Off));
    assert_eq!(mode_properties(QueueMode::Single), (false, MprisLoop::Off));
    let state = obj(vec![("queue_mode", text("single"))]);
    assert_eq!(loop_status(&state).unwrap(), MprisLoop::Off);
    assert!(!shuffle(&state).unwrap());
    let state = obj(vec![("queue_mode", text("loop"))]);
    assert_eq!(loop_status(&state).unwrap(), MprisLoop::Track);
}
