use foksal::common::json::{JsonNumber, JsonObject, JsonValue};
use foksal::common::net::request::{RawFilter, RawMetadataArgs, RawSelectArgs};
use foksal::db::decoder::{newest_request, serve_seconds, DecoderRequest, PendingRequests, Serve};
use foksal::db::filter::ParsedFilter;
use foksal::common::config::{IgnoreGlob, IgnoreSet};
use foksal::db::fs_utils::{ensure_path_exists, ext_matches, strip_or_default, to_absolute, walk_entry, walk_keeps};
use foksal::db::request::{ParsedMetadataArgs, ParsedSelectArgs};
use foksal::db::song_metadata::{SongMetadata, TagData};
use foksal::db::table::{Db, DbEvent};
use foksal::db::tag::{ExtendedTagKey, StandardTagKey, TagKey};

fn show(v: &JsonValue) -> String {
    match v {
        JsonValue::Null => "null".to_string(),
        JsonValue::Bool(b) => b.to_string(),
        JsonValue::Number(JsonNumber::PosInt(n)) => n.to_string(),
        JsonValue::Number(JsonNumber::NegInt(n)) => n.to_string(),
        JsonValue::String(s) => format!("{:?}", s),
        JsonValue::Array(a) => format!("[{}]", a.iter().map(show).collect::<Vec<_>>().join(",")),
        JsonValue::Object(o) => show_object(o),
    }
}

fn show_object(o: &JsonObject) -> String {
    let items: Vec<String> = o.entries().iter().map(|(k, v)| format!("{:?}:{}", k, show(v))).collect();
    format!("{{{}}}", items.join(","))
}

fn song(artist: &str, album: &str, uri: &str) -> SongMetadata {
    let tags = vec![
        (Some(StandardTagKey::Artist), artist.to_string()),
        (Some(StandardTagKey::Album), album.to_string()),
    ];
    SongMetadata::from_revision(&tags, uri)
}

fn text_of(d: Option<&TagData>) -> Option<String> {
    match d {
        Some(TagData::Text(s)) => Some(s.clone()),
        _ => None,
    }
}

fn sample_db() -> Db {
    Db::new(
        "/music",
        vec![
            ("c.flac".to_string(), song("Baz", "Bar", "/music/c.flac")),
            ("a.flac".to_string(), song("Foo Bar", "Foo", "/music/a.flac")),
            ("b.flac".to_string(), song("Quux", "Foo", "/music/b.flac")),
        ],
    )
}

#[test]
fn from_revision_keeps_first_value_of_known_tags() {
    let tags = vec![
        (Some(StandardTagKey::Artist), "First".to_string()),
        (None, "ignored".to_string()),
        (Some(StandardTagKey::Artist), "Second".to_string()),
        (Some(StandardTagKey::TrackTitle), "Song".to_string()),
    ];
    let m = SongMetadata::from_revision(&tags, "/x.mp3");
    assert_eq!(text_of(m.get(&TagKey::Standard(StandardTagKey::Artist))), Some("First".to_string()));
    assert_eq!(text_of(m.get(&TagKey::Standard(StandardTagKey::TrackTitle))), Some("Song".to_string()));
    assert!(m.get(&TagKey::Standard(StandardTagKey::Album)).is_none());
    assert_eq!(m.uri(), "/x.mp3");
}

#[test]
fn merge_prefers_the_second_source() {
    let a = SongMetadata::from_revision(
        &vec![
            (Some(StandardTagKey::Artist), "A".to_string()),
            (Some(StandardTagKey::Album), "X".to_string()),
        ],
        "",
    );
    let b = SongMetadata::from_revision(&vec![(Some(StandardTagKey::Artist), "B".to_string())], "/p");
    let m = a.merge(b);
    assert_eq!(text_of(m.get(&TagKey::Standard(StandardTagKey::Artist))), Some("B".to_string()));
    assert_eq!(text_of(m.get(&TagKey::Standard(StandardTagKey::Album))), Some("X".to_string()));
    assert_eq!(m.uri(), "/p");
}

#[test]
fn try_new_adds_duration_and_size() {
    let container = Some(vec![(Some(StandardTagKey::Genre), "Rock".to_string())]);
    let m = SongMetadata::try_new("a/b.flac", "/music", container, None, true, Some(237), Some(1024)).unwrap();
    assert_eq!(m.uri(), "/music/a/b.flac");
    assert_eq!(text_of(m.get(&TagKey::Standard(StandardTagKey::Genre))), Some("Rock".to_string()));
    match m.get(&TagKey::Extended(ExtendedTagKey::Duration)) {
        Some(TagData::Number(n)) => assert_eq!(*n, 237),
        other => panic!("unexpected duration {:?}", other),
    }
    match m.get(&TagKey::Extended(ExtendedTagKey::FileSize)) {
        Some(TagData::Number(n)) => assert_eq!(*n, 1024),
        other => panic!("unexpected file size {:?}", other),
    }
}

#[test]
fn try_new_without_track_fails() {
    let e = SongMetadata::try_new("x.mp3", "/music", None, None, false, None, None).unwrap_err();
    assert_eq!(e, "no audio track found in `x.mp3`");
}

#[test]
fn cover_art_is_base64_of_first_picture() {
    assert_eq!(SongMetadata::cover_art(Some(b"hello".to_vec()), Some(b"x".to_vec())).unwrap(), "aGVsbG8=");
    assert_eq!(SongMetadata::cover_art(None, Some(b"hi".to_vec())).unwrap(), "aGk=");
    assert_eq!(SongMetadata::cover_art(None, None).unwrap_err(), "no cover art found");
}

#[test]
fn filters_check_tag_and_transliterated_regex() {
    let f = ParsedFilter::try_from(RawFilter { tag: "artist".to_string(), regex: "^Zo\u{eb}$".to_string() }).unwrap();
    assert_eq!(f.tag, TagKey::Standard(StandardTagKey::Artist));
    assert_eq!(f.regex, "^Zoe$");
    let e = ParsedFilter::try_from(RawFilter { tag: "nope".to_string(), regex: ".*".to_string() }).unwrap_err();
    assert_eq!(e, "invalid tag key `nope`");
    assert!(ParsedFilter::try_from(RawFilter { tag: "album".to_string(), regex: "(".to_string() }).is_err());
}

#[test]
fn song_matches_all_filters() {
    let s = song("Foo Bar", "Foo", "/a");
    let f1 = ParsedFilter::try_from(RawFilter { tag: "artist".to_string(), regex: "^Foo".to_string() }).unwrap();
    let f2 = ParsedFilter::try_from(RawFilter { tag: "album".to_string(), regex: "o$".to_string() }).unwrap();
    let f3 = ParsedFilter::try_from(RawFilter { tag: "genre".to_string(), regex: ".*".to_string() }).unwrap();
    assert!(s.matches(&vec![]));
    let both = vec![f1, f2];
    assert!(s.matches(&both));
    assert!(!s.matches(&vec![f3]));
}

#[test]
fn table_create_get_modify_remove() {
    let mut db = sample_db();
    assert_eq!(db.music_root(), "/music");
    assert!(db.get("a.flac").is_some());
    assert!(db.get("d.flac").is_none());
    match db.create("d.flac".to_string(), song("D", "E", "/music/d.flac")) {
        DbEvent::Create { uri } => assert_eq!(uri, "d.flac"),
        other => panic!("unexpected event {:?}", other),
    }
    assert_eq!(text_of(db.get("d.flac").unwrap().get(&TagKey::Standard(StandardTagKey::Artist))), Some("D".to_string()));
    db.modify("d.flac".to_string(), song("F", "E", "/music/d.flac"));
    assert_eq!(text_of(db.get("d.flac").unwrap().get(&TagKey::Standard(StandardTagKey::Artist))), Some("F".to_string()));
    db.modify("zzz.flac".to_string(), song("F", "E", "/music/zzz.flac"));
    assert!(db.get("zzz.flac").is_none());
    assert!(db.remove("d.flac").is_some());
    assert!(db.remove("d.flac").is_none());
    assert!(db.get("d.flac").is_none());
}

#[test]
fn metadata_answers_each_uri_in_order() {
    let db = sample_db();
    let args = ParsedMetadataArgs {
        uris: vec!["b.flac".to_string(), "missing.flac".to_string()],
        tags: vec![TagKey::Standard(StandardTagKey::Artist), TagKey::Standard(StandardTagKey::Genre)],
    };
    let r = db.metadata(&args);
    assert_eq!(show_object(r.inner()), r#"{"ok":true,"metadata":[{"artist":"Quux","genre":null},null]}"#);
}

#[test]
fn select_groups_in_path_order() {
    let db = sample_db();
    let args = ParsedSelectArgs { filters: vec![], group_by: vec![TagKey::Standard(StandardTagKey::Album)] };
    let r = db.select(&args);
    assert_eq!(
        show_object(r.inner()),
        r#"{"ok":true,"values":[{"album":"Foo","uris":["a.flac","b.flac"]},{"album":"Bar","uris":["c.flac"]}]}"#
    );
}

#[test]
fn req_select_filters_and_reports_argument_errors() {
    let db = sample_db();
    let raw = RawSelectArgs {
        filters: Some(vec![RawFilter { tag: "artist".to_string(), regex: "^Foo Bar$".to_string() }]),
        group_by: None,
    };
    assert_eq!(show_object(db.req_select(raw).inner()), r#"{"ok":true,"values":[{"uris":["a.flac"]}]}"#);

    let bad = RawSelectArgs { filters: None, group_by: Some(vec!["colour".to_string()]) };
    assert_eq!(
        show_object(db.req_select(bad).inner()),
        r#"{"ok":false,"reason":"argument error (invalid tag key `colour`)"}"#
    );
}

#[test]
fn req_metadata_reports_unknown_tags() {
    let db = sample_db();
    let raw = RawMetadataArgs { uris: vec!["a.flac".to_string()], tags: vec!["artist".to_string(), "x".to_string()] };
    assert_eq!(
        show_object(db.req_metadata(raw).inner()),
        r#"{"ok":false,"reason":"argument error (invalid tag key `x`)"}"#
    );
}

#[test]
fn paths_relative_to_the_root() {
    assert_eq!(to_absolute("a/b.mp3", "/music"), "/music/a/b.mp3");
    assert_eq!(to_absolute("/x/y.mp3", "/music"), "/x/y.mp3");
    assert_eq!(strip_or_default("/music/a/b.mp3", "/music"), "a/b.mp3");
    assert_eq!(strip_or_default("/other/b.mp3", "/music"), "/other/b.mp3");
}

#[test]
fn extensions_and_walk_entries() {
    let exts = vec!["mp3".to_string(), "flac".to_string()];
    assert_eq!(ext_matches("a/b.flac", &exts), Some(true));
    assert_eq!(ext_matches("a/b.wav", &exts), Some(false));
    assert_eq!(ext_matches("a/b", &exts), Some(false));
    let none = IgnoreSet::build(&vec![]).unwrap();
    assert_eq!(walk_entry("/m/sub/x.mp3", true, "/m", &exts, &none), Some("sub/x.mp3".to_string()));
    assert_eq!(walk_entry("/m/sub", false, "/m", &exts, &none), None);
    assert_eq!(walk_entry("/m/ignored", true, "/m", &exts, &none), None);
}

#[test]
fn ignore_globs_filter_the_walk() {
    let exts = vec!["mp3".to_string()];
    let globs = vec![IgnoreGlob::new("**/*.tmp.mp3").unwrap(), IgnoreGlob::new("**/skip").unwrap()];
    let set = IgnoreSet::build(&globs).unwrap();
    assert!(!walk_keeps("/m/a/b.tmp.mp3", &set));
    assert!(!walk_keeps("/m/skip", &set));
    assert!(walk_keeps("/m/a/b.mp3", &set));
    assert_eq!(walk_entry("/m/a/b.tmp.mp3", true, "/m", &exts, &set), None);
    assert_eq!(walk_entry("/m/a/b.mp3", true, "/m", &exts, &set), Some("a/b.mp3".to_string()));
    let none = IgnoreSet::build(&vec![]).unwrap();
    assert!(walk_keeps("/m/skip", &none));
}

#[test]
fn missing_paths_are_reported() {
    assert_eq!(ensure_path_exists("/m", Ok(true)), Ok(()));
    assert_eq!(ensure_path_exists("/m", Ok(false)), Err("path `/m` not found".to_string()));
    assert_eq!(
        ensure_path_exists("/m", Err("denied".to_string())),
        Err("path `/m` could not be accessed (denied)".to_string())
    );
}

#[test]
fn decoder_serves_smallest_end_first_when_ready() {
    let mut p = PendingRequests::new();
    p.push(DecoderRequest { start: 0, end: 99, id: 1 });
    p.push(DecoderRequest { start: 0, end: 9, id: 2 });
    p.push(DecoderRequest { start: 10, end: 49, id: 3 });
    assert_eq!(p.pop_ready(5), None);
    assert_eq!(p.pop_ready(10).map(|r| r.id), Some(2));
    assert_eq!(p.pop_ready(10), None);
    assert_eq!(p.pop_ready(100).map(|r| r.id), Some(3));
    assert_eq!(p.pop_ready(100).map(|r| r.id), Some(1));
    assert_eq!(p.len(), 0);
    let a = DecoderRequest { start: 0, end: 3, id: 0 };
    let b = DecoderRequest { start: 0, end: 5, id: 0 };
    assert_eq!(a.cmp(&b), std::cmp::Ordering::Greater);
    assert_eq!(b.cmp(&a), std::cmp::Ordering::Less);
}

#[test]
fn table_keeps_path_order() {
    let db = Db::new(
        "/music",
        vec![
            ("a.flac".to_string(), song("X", "Y", "/music/a.flac")),
            ("a-b.flac".to_string(), song("X", "Y", "/music/a-b.flac")),
            ("a/b.flac".to_string(), song("X", "Y", "/music/a/b.flac")),
        ],
    );
    let args = ParsedSelectArgs { filters: vec![], group_by: vec![] };
    assert_eq!(
        show_object(db.select(&args).inner()),
        r#"{"ok":true,"values":[{"uris":["a/b.flac","a-b.flac","a.flac"]}]}"#
    );
}

#[test]
fn decoder_requests_are_equal_by_end() {
    let a = DecoderRequest { start: 0, end: 7, id: 1 };
    let b = DecoderRequest { start: 3, end: 7, id: 2 };
    let c = DecoderRequest { start: 0, end: 8, id: 1 };
    assert!(a == b);
    assert!(a != c);
    assert_eq!(a.cmp(&b), std::cmp::Ordering::Equal);
}

#[test]
fn requests_in_seconds_wait_for_their_samples() {
    assert_eq!(serve_seconds(1, 2, 2, 10, 40), Serve::Now { start: 20, end: 39 });
    assert_eq!(serve_seconds(1, 2, 2, 10, 39), Serve::Later);
    let a = DecoderRequest { start: 0, end: 1, id: 1 };
    let b = DecoderRequest { start: 1, end: 2, id: 2 };
    assert_eq!(newest_request(Some(a), Some(b)).map(|r| r.id), Some(2));
    assert_eq!(newest_request(Some(a), None).map(|r| r.id), Some(1));
    assert_eq!(newest_request(None, None).map(|r| r.id), None);
}

#[test]
fn invalid_globs_report_the_pattern() {
    let e = IgnoreGlob::new("a[").unwrap_err();
    assert!(e.contains("a["));
    let e = foksal::common::config::compile_globs(&vec!["*.tmp".to_string(), "b{".to_string(), "c[".to_string()])
        .unwrap_err();
    assert!(e.contains("b{"));
    assert!(walk_keeps("x", &IgnoreSet::empty()));
}
