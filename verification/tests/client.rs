use foksal::client::error::FoksalError;
use foksal::client::model::{PlaybackState, QueueMode, TagKey, TagValue};
use foksal::client::protocol::{
    accept_welcome, decode_cover_art, decode_metadata, decode_select, decode_unique, route,
    welcome_error, AsyncError, AsyncMessage, Event, FoksalMessage, RawResponse, Route,
    WelcomeMessage,
};
use foksal::common::json::{JsonNumber, JsonObject, JsonValue};

fn json_of(v: &serde_json::Value) -> JsonValue {
    match v {
        serde_json::Value::Null => JsonValue::Null,
        serde_json::Value::Bool(b) => JsonValue::Bool(*b),
        serde_json::Value::Number(n) => match n.as_u64() {
            Some(u) => JsonValue::Number(JsonNumber::from_u64(u)),
            None => JsonValue::Number(JsonNumber::from_i64(n.as_i64().unwrap())),
        },
        serde_json::Value::String(s) => JsonValue::String(s.clone()),
        serde_json::Value::Array(a) => JsonValue::Array(a.iter().map(json_of).collect()),
        serde_json::Value::Object(o) => JsonValue::Object(object_of(o)),
    }
}

fn object_of(o: &serde_json::Map<String, serde_json::Value>) -> JsonObject {
    let mut r = JsonObject::new();
    for (k, v) in o {
        r.insert(k.clone(), json_of(v));
    }
    r
}

fn mode_of(s: &str) -> QueueMode {
    match s {
        "sequential" => QueueMode::Sequential,
        "loop" => QueueMode::Loop,
        "random" => QueueMode::Random,
        _ => QueueMode::Single,
    }
}

fn state_of(s: &str) -> PlaybackState {
    match s {
        "playing" => PlaybackState::Playing,
        "paused" => PlaybackState::Paused,
        _ => PlaybackState::Stopped,
    }
}

fn response_from(text: &str) -> RawResponse {
    let v: serde_json::Value = serde_json::from_str(text).unwrap();
    let s = |k: &str| v.get(k).and_then(|x| x.as_str()).map(|x| x.to_string());
    let n = |k: &str| v.get(k).and_then(|x| x.as_u64());
    RawResponse {
        ok: v["ok"].as_bool().unwrap(),
        reason: s("reason"),
        token: s("token"),
        current_song: s("current_song"),
        current_song_id: n("current_song_id").map(|x| x as usize),
        queue_pos: n("queue_pos").map(|x| x as usize),
        queue_mode: v.get("queue_mode").and_then(|x| x.as_str()).map(mode_of),
        queue: v.get("queue").and_then(|x| x.as_array()).map(|a| {
            a.iter().map(|x| x.as_str().unwrap().to_string()).collect()
        }),
        playback_state: v.get("playback_state").and_then(|x| x.as_str()).map(state_of),
        volume: n("volume").map(|x| x as u8),
        elapsed: n("elapsed"),
        metadata: v.get("metadata").and_then(|x| x.as_array()).map(|a| {
            a.iter().map(|m| m.as_object().map(object_of)).collect()
        }),
        values: v.get("values").map(json_of),
        image: s("image"),
    }
}

#[test]
fn deserialize_ok_response() {
    let r = response_from(r#"{"ok": true}"#);
    assert!(r.ok);
    assert!(r.check_ok().is_ok());
}

#[test]
fn deserialize_error_response() {
    let r = response_from(r#"{"ok": false, "reason": "pos out of bounds"}"#);
    assert!(!r.ok);
    assert_eq!(r.reason.clone().unwrap(), "pos out of bounds");
    match r.check_ok() {
        Err(FoksalError::ServerError { reason }) => assert_eq!(reason, "pos out of bounds"),
        _ => panic!("expected a server error"),
    }
}

#[test]
fn refusal_without_reason_is_unknown_error() {
    match response_from(r#"{"ok": false}"#).check_ok() {
        Err(FoksalError::ServerError { reason }) => assert_eq!(reason, "unknown error"),
        _ => panic!("expected a server error"),
    }
}

#[test]
fn deserialize_state_response() {
    let json = r#"{
        "ok": true,
        "current_song": "Artist/Album/01 Song.flac",
        "queue_pos": 0,
        "queue_mode": "random",
        "queue": ["Artist/Album/01 Song.flac"],
        "playback_state": "playing",
        "volume": 80,
        "elapsed": 123
    }"#;
    let state = response_from(json).into_player_state().unwrap();
    assert_eq!(state.volume, 80);
    assert_eq!(state.queue_mode, QueueMode::Random);
    assert_eq!(state.playback_state, PlaybackState::Playing);
}

#[test]
fn incomplete_state_is_unexpected() {
    match response_from(r#"{"ok": true, "volume": 3}"#).into_player_state() {
        Err(FoksalError::UnexpectedResponse { request }) => assert_eq!(request, "state"),
        _ => panic!("expected an unexpected response"),
    }
}

#[test]
fn deserialize_metadata_response() {
    let json = r#"{
        "ok": true,
        "metadata": [
            {"tracktitle": "Song", "artist": "Artist", "duration": 237},
            null
        ]
    }"#;
    let r = response_from(json);
    let meta = r.metadata.as_ref().unwrap();
    assert_eq!(meta.len(), 2);
    assert!(meta[0].is_some());
    assert!(meta[1].is_none());
    match meta[0].as_ref().unwrap().get("tracktitle") {
        Some(JsonValue::String(s)) => assert_eq!(s, "Song"),
        _ => panic!("expected the title"),
    }
    let decoded = decode_metadata(r).unwrap();
    let first = decoded[0].as_ref().unwrap();
    assert!(first.contains(&(TagKey::TrackTitle, TagValue::String("Song".to_string()))));
    assert!(first.contains(&(TagKey::Duration, TagValue::Number(237))));
    assert!(decoded[1].is_none());
}

#[test]
fn metadata_with_unknown_tag_is_refused() {
    let r = response_from(r#"{"ok": true, "metadata": [{"mood": "calm"}]}"#);
    match decode_metadata(r) {
        Err(FoksalError::InvalidTagKey(k)) => assert_eq!(k, "mood"),
        _ => panic!("expected an invalid tag key"),
    }
}

#[test]
fn deserialize_select_response() {
    let json = r#"{
        "ok": true,
        "values": [
            {"album": "Foo", "uris": ["a.flac", "b.flac"]},
            {"album": "Bar", "uris": ["c.flac"]}
        ]
    }"#;
    let groups = response_from(json).into_select_groups().unwrap();
    assert_eq!(groups.len(), 2);
    assert_eq!(groups[0].uris.len(), 2);
    let decoded = decode_select(response_from(json)).unwrap();
    assert_eq!(decoded[1].uris, vec!["c.flac".to_string()]);
    assert_eq!(decoded[1].tags, vec![(TagKey::Album, TagValue::String("Bar".to_string()))]);
}

#[test]
fn deserialize_unique_response() {
    let json = r#"{
        "ok": true,
        "values": [
            {"genre": "Electronic", "unique": ["Foo", "Bar"]},
            {"genre": "Metal", "unique": ["Baz"]}
        ]
    }"#;
    let groups = response_from(json).into_unique_groups().unwrap();
    assert_eq!(groups.len(), 2);
    assert_eq!(groups[1].unique.len(), 1);
    match &groups[1].unique[0] {
        JsonValue::String(s) => assert_eq!(s, "Baz"),
        _ => panic!("expected a string"),
    }
    let decoded = decode_unique(response_from(json)).unwrap();
    assert_eq!(decoded[1].unique, vec![TagValue::String("Baz".to_string())]);
    assert_eq!(decoded[0].tags, vec![(TagKey::Genre, TagValue::String("Electronic".to_string()))]);
}

#[test]
fn malformed_groups_are_serialization_errors() {
    let r = response_from(r#"{"ok": true, "values": [{"album": "Foo"}]}"#);
    assert!(matches!(r.into_select_groups(), Err(FoksalError::Serialization(_))));
    let r = response_from(r#"{"ok": true}"#);
    match r.into_unique_groups() {
        Err(FoksalError::UnexpectedResponse { request }) => assert_eq!(request, "unique"),
        _ => panic!("expected an unexpected response"),
    }
}

#[test]
fn deserialize_response_with_token() {
    let r = response_from(r#"{"ok": true, "token": "abc123"}"#);
    assert!(r.ok);
    assert_eq!(r.token.clone().unwrap(), "abc123");
    match route(FoksalMessage::Response(r), "1.2.3", "1") {
        Route::Reply { token, response } => {
            assert_eq!(token, "abc123");
            assert!(response.ok);
        }
        _ => panic!("expected a reply"),
    }
}

#[test]
fn cover_art_is_decoded_from_base64() {
    let r = response_from(r#"{"ok": true, "image": "aGVsbG8="}"#);
    assert_eq!(decode_cover_art(r).unwrap(), Some(b"hello".to_vec()));
    let r = response_from(r#"{"ok": true}"#);
    assert_eq!(decode_cover_art(r).unwrap(), None);
    let r = response_from(r#"{"ok": true, "image": "!!"}"#);
    assert!(matches!(decode_cover_art(r), Err(FoksalError::Base64Decode(_))));
}

#[test]
fn welcome_versions_are_checked_by_major() {
    assert!(welcome_error("v1.4.0".to_string(), "1.0.2", "1").is_none());
    match welcome_error("v2.0.0".to_string(), "1.0.2", "1") {
        Some(FoksalError::VersionMismatch { lib_version, instance_version }) => {
            assert_eq!(lib_version, "1.0.2");
            assert_eq!(instance_version, "v2.0.0");
        }
        _ => panic!("expected a mismatch"),
    }
    let w = FoksalMessage::Welcome(WelcomeMessage { version: "v1.0.0".to_string() });
    assert!(accept_welcome(Some(w), "1.0.0", "1").is_ok());
    assert!(matches!(accept_welcome(None, "1.0.0", "1"), Err(FoksalError::InvalidWelcome)));
    let e = FoksalMessage::Event(Event::Volume { volume: 3 });
    assert!(matches!(accept_welcome(Some(e), "1.0.0", "1"), Err(FoksalError::InvalidWelcome)));
}

#[test]
fn messages_are_routed() {
    match route(FoksalMessage::Event(Event::Elapsed { seconds: 42 }), "1.0.0", "1") {
        Route::Notify(AsyncMessage::Event(Event::Elapsed { seconds })) => assert_eq!(seconds, 42),
        _ => panic!("expected an event"),
    }
    let e = FoksalMessage::AsyncError(AsyncError { error: "decoder".to_string(), reason: "unsupported codec".to_string() });
    match route(e, "1.0.0", "1") {
        Route::Notify(AsyncMessage::Error(FoksalError::Async { error, reason })) => {
            assert_eq!(error, "decoder");
            assert_eq!(reason, "unsupported codec");
        }
        _ => panic!("expected an error"),
    }
    let no_token = response_from(r#"{"ok": true}"#);
    assert!(matches!(route(FoksalMessage::Response(no_token), "1.0.0", "1"), Route::Drop));
    let w = FoksalMessage::Welcome(WelcomeMessage { version: "v0.9".to_string() });
    assert!(matches!(route(w, "1.0.0", "1"), Route::Notify(AsyncMessage::Error(FoksalError::VersionMismatch { .. }))));
}

#[test]
fn tag_keys_and_values() {
    assert_eq!(TagKey::try_from("albumartist").unwrap(), TagKey::AlbumArtist);
    assert_eq!(TagKey::FileSize.to_string(), "filesize");
    assert!(matches!(TagKey::try_from("x"), Err(FoksalError::InvalidTagKey(_))));
    let v = TagValue::try_from(JsonValue::Number(JsonNumber::from_i64(-4))).unwrap();
    assert_eq!(v.as_i64(), Some(-4));
    assert_eq!(v.as_str(), None);
    assert_eq!(TagValue::try_from(JsonValue::Null).unwrap().as_null(), Some(()));
    match TagValue::try_from(JsonValue::Bool(true)) {
        Err(FoksalError::InvalidTagValue(k)) => assert_eq!(k, "bool"),
        _ => panic!("expected an invalid value"),
    }
}

#[test]
fn cover_art_round_trips_through_base64() {
    let bytes: Vec<u8> = (0u8..=255).collect();
    let text = foksal::db::song_metadata::SongMetadata::cover_art(Some(bytes.clone()), None).unwrap();
    let r = response_from(&format!(r#"{{"ok": true, "image": "{}"}}"#, text));
    assert_eq!(decode_cover_art(r).unwrap(), Some(bytes));
}

#[test]
fn tag_key_names_parse_back() {
    let all = [
        TagKey::Album, TagKey::AlbumArtist, TagKey::Artist, TagKey::Composer, TagKey::Date,
        TagKey::DiscNumber, TagKey::Duration, TagKey::FileSize, TagKey::Genre, TagKey::Performer,
        TagKey::Producer, TagKey::SortAlbum, TagKey::SortAlbumArtist, TagKey::SortArtist,
        TagKey::SortComposer, TagKey::SortTrackTitle, TagKey::TrackNumber, TagKey::TrackTitle,
    ];
    for k in all {
        assert_eq!(TagKey::try_from(k.to_string().as_str()).ok(), Some(k));
    }
    assert!(matches!(TagKey::try_from("Album"), Err(FoksalError::InvalidTagKey(s)) if s == "Album"));
}
