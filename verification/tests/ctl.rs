use foksal::client::model::{PlaybackState, PlayerState, QueueMode, TagKey, TagValue};
use foksal::client::protocol::Request;
use foksal::common::json::{JsonNumber, JsonObject, JsonValue};
use foksal::ctl::{command_request, report_tags, state_report, Command};

fn render(v: &JsonValue) -> String {
    match v {
        JsonValue::Null => "null".to_string(),
        JsonValue::Bool(b) => b.to_string(),
        JsonValue::Number(JsonNumber::PosInt(n)) => n.to_string(),
        JsonValue::Number(JsonNumber::NegInt(n)) => n.to_string(),
        JsonValue::String(s) => format!("{:?}", s),
        JsonValue::Array(a) => format!("[{}]", a.iter().map(render).collect::<Vec<_>>().join(",")),
        JsonValue::Object(o) => render_object(o),
    }
}

fn render_object(o: &JsonObject) -> String {
    let items: Vec<String> = o.entries().iter().map(|(k, v)| format!("{:?}:{}", k, render(v))).collect();
    format!("{{{}}}", items.join(","))
}

#[test]
fn commands_map_to_requests() {
    assert!(matches!(command_request(Command::Sequential), Some(Request::QueueSeq)));
    assert!(matches!(command_request(Command::Loop), Some(Request::QueueLoop)));
    assert!(matches!(command_request(Command::Clear), Some(Request::QueueClear)));
    assert!(matches!(command_request(Command::SeekBy { seconds: -10 }), Some(Request::SeekBy { seconds: -10 })));
    assert!(matches!(command_request(Command::Move { from: 5, to: 7 }), Some(Request::QueueMove { from: 5, to: 7 })));
    match command_request(Command::Add { uris: vec!["a.flac".to_string()] }) {
        Some(Request::AddToQueue { uris, pos }) => {
            assert_eq!(uris, vec!["a.flac".to_string()]);
            assert_eq!(pos, None);
        }
        _ => panic!("expected add_to_queue"),
    }
    assert!(command_request(Command::State).is_none());
    assert_eq!(report_tags(), vec![TagKey::Artist, TagKey::Album, TagKey::TrackTitle, TagKey::Duration]);
}

#[test]
fn state_report_shows_queue_with_metadata() {
    let state = PlayerState {
        current_song: Some("a.flac".to_string()),
        current_song_id: Some(3),
        queue_pos: Some(0),
        queue_mode: QueueMode::Random,
        queue: vec!["a.flac".to_string(), "b.flac".to_string()],
        playback_state: PlaybackState::Paused,
        volume: 80,
        elapsed: 12,
    };
    let songs = vec![
        Some(vec![(TagKey::Artist, TagValue::String("X".to_string())), (TagKey::Duration, TagValue::Number(200))]),
        None,
    ];
    let r = state_report(&state, &songs);
    let expected = [
        r#"{"current_song":"a.flac","current_song_id":3,"queue_pos":0,"queue_mode":"random","#,
        r#""queue":[{"uri":"a.flac","metadata":{"artist":"X","duration":200}},{"uri":"b.flac","metadata":{}}],"#,
        r#""playback_state":"paused","volume":80,"elapsed":12}"#,
    ]
    .join("");
    assert_eq!(render(&r), expected);
}
