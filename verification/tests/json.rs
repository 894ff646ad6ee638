use foksal::common::json::{JsonNumber, JsonObject, JsonValue};
use foksal::common::net::request::{
    DbSubTarget, LocalRequest, RawDbRequest, RawFileRequest, RawMetadataArgs, RawPlayerRequest, RemoteRequest,
};
use foksal::common::net::response::Response;
use foksal::common::net::session::{
    client_step, connection_frames, dispatch, invalid_request, proxy_step, remote_dispatch, Dispatch, Frame, Incoming, RemoteDispatch, Step,
};
use foksal::common::utils::uri_to_track_id;

#[test]
fn a_later_insert_wins() {
    let mut o = JsonObject::new();
    o.insert("k".to_string(), JsonValue::Bool(false));
    o.insert("j".to_string(), JsonValue::Null);
    o.insert("k".to_string(), JsonValue::Bool(true));
    assert!(matches!(o.get("k"), Some(JsonValue::Bool(true))));
    assert!(matches!(o.get("j"), Some(JsonValue::Null)));
    assert!(o.get("x").is_none());
}

#[test]
fn numbers_convert_when_they_fit() {
    assert_eq!(JsonNumber::from_u64(u64::MAX).as_i64(), None);
    assert_eq!(JsonNumber::from_i64(-1).as_u64(), None);
    assert_eq!(JsonNumber::from_i64(5).as_u64(), Some(5));
}

#[test]
fn responses() {
    let r = Response::new_err("boom".to_string());
    assert!(matches!(r.inner().get("ok"), Some(JsonValue::Bool(false))));
    let r = invalid_request("eof");
    match r.inner().get("reason") {
        Some(JsonValue::String(s)) => assert_eq!(s, "invalid request (eof)"),
        _ => panic!("expected a reason"),
    }
    let v = Response::version("1.2.3");
    match v.inner().get("version") {
        Some(JsonValue::String(s)) => assert_eq!(s, "foksal v1.2.3"),
        _ => panic!("expected a version"),
    }
}

#[test]
fn connection_steps() {
    assert!(matches!(client_step(Incoming::Binary(vec![1])), Step::Handle(b) if b == vec![1]));
    assert!(matches!(client_step(Incoming::Ping(vec![2])), Step::Pong(d) if d == vec![2]));
    assert!(matches!(client_step(Incoming::Close), Step::Finish));
    assert!(matches!(client_step(Incoming::Ended), Step::Fail(e) if e == "connection closed unexpectedly"));
    assert!(matches!(proxy_step(Incoming::Close), Step::Wait));
    assert!(matches!(proxy_step(Incoming::Text("x".to_string())), Step::Wait));
}

#[test]
fn requests_are_dispatched() {
    assert!(matches!(
        dispatch(LocalRequest::DbRequest(RawDbRequest::Subscribe(DbSubTarget::Update))),
        Dispatch::DbSubscribe(DbSubTarget::Update)
    ));
    assert!(matches!(dispatch(LocalRequest::PlayerRequest(RawPlayerRequest::Next)), Dispatch::Player(RawPlayerRequest::Next)));
}

#[test]
fn track_ids_are_object_paths() {
    assert_eq!(uri_to_track_id("a b/c.flac", 3), "/foksal/3_a_b_c_flac");
    assert_eq!(uri_to_track_id("\u{e9}", 0), "/foksal/0___");
}

#[test]
fn remote_requests_are_routed() {
    let r = remote_dispatch(RemoteRequest::DbRequest { request: RawDbRequest::Subscribe(DbSubTarget::Update), client: 4 });
    assert!(matches!(r, RemoteDispatch::DbSubscribe { target: DbSubTarget::Update, client: 4 }));
    let r = remote_dispatch(RemoteRequest::DbRequest { request: RawDbRequest::Unsubscribe(DbSubTarget::Update), client: 5 });
    assert!(matches!(r, RemoteDispatch::DbUnsubscribe { client: 5, .. }));
    let r = remote_dispatch(RemoteRequest::DbRequest {
        request: RawDbRequest::Metadata(RawMetadataArgs { uris: vec![], tags: vec![] }),
        client: 6,
    });
    assert!(matches!(r, RemoteDispatch::Db { request: RawDbRequest::Metadata(_), client: 6 }));
    let r = remote_dispatch(RemoteRequest::FileRequest(RawFileRequest::GetChunk { uri: "a".to_string(), start: 0, end: 9 }));
    assert!(matches!(r, RemoteDispatch::File(RawFileRequest::GetChunk { start: 0, end: 9, .. })));
}

#[test]
fn a_connection_answers_each_request_once_and_closes_last() {
    let msgs = vec![
        Incoming::Binary(vec![1]),
        Incoming::Ping(vec![9]),
        Incoming::Text("x".to_string()),
        Incoming::Binary(vec![2]),
        Incoming::Close,
        Incoming::Binary(vec![3]),
    ];
    let (frames, end) = connection_frames(&msgs);
    assert_eq!(frames, vec![Frame::Reply(0), Frame::Pong(1), Frame::Reply(3), Frame::Close]);
    assert!(end.is_ok());
    let (frames, end) = connection_frames(&vec![Incoming::Binary(vec![]), Incoming::Ended]);
    assert_eq!(frames, vec![Frame::Reply(0), Frame::Close]);
    assert_eq!(end, Err("connection closed unexpectedly".to_string()));
    let (frames, end) = connection_frames(&vec![Incoming::Failed("reset".to_string())]);
    assert_eq!(frames, vec![Frame::Close]);
    assert_eq!(end, Err("reset".to_string()));
    let (frames, end) = connection_frames(&vec![Incoming::Binary(vec![])]);
    assert_eq!(frames, vec![Frame::Reply(0), Frame::Close]);
    assert!(end.is_ok());
}
