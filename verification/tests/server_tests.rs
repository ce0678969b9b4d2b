use hyper::header::HeaderValue;
use hyper::HeaderMap;
use layline::ident::check_session_id;
use layline::reply::{do_response, make_response, Body, Handled, Reply};
use layline::server::{
    do_close, do_recv, exit_code, not_found, recv_plan, router, CreateStep, Route, SendStep,
    SendTransfer, ServerState, Session, Verdict,
};
use layline::transfer::{Polled, ReadOutcome};

type Server = ServerState<u32, &'static str>;

const DEST: u32 = 4242;

fn headers_for(id: &str) -> HeaderMap<HeaderValue> {
    let mut headers = HeaderMap::new();
    headers.insert("X-Layline-Session", HeaderValue::from_str(id).unwrap());
    headers
}

fn assert_reply(reply: &Reply, status: u16) {
    assert_eq!(reply.status, status);
    assert_eq!(
        reply.headers,
        vec![("Cache-Control".to_string(), "no-cache".to_string())]
    );
}

fn open(server: &mut Server, entry: &'static str) -> String {
    let (id, dest) = match server.do_create() {
        CreateStep::Connect { id, dest } => (id, dest),
        CreateStep::Refuse(_) => panic!("refused"),
    };
    assert_eq!(dest, DEST);
    let created = server.finish_create(id.clone(), Some(entry));
    assert!(created.entered);
    assert_reply(&created.reply, 200);
    match created.reply.body {
        Body::Text(text) => assert_eq!(text, id),
        _ => panic!("expected the identifier"),
    }
    id
}

fn finished(step: SendStep) -> Verdict {
    match step {
        SendStep::Finish(verdict) => verdict,
        SendStep::Write(_) => panic!("expected the end"),
    }
}

#[test]
fn requests_are_routed_by_target_and_method() {
    assert!(matches!(router("/create", "GET"), Route::Create));
    assert!(matches!(router("/recv", "GET"), Route::Recv));
    assert!(matches!(router("/send", "POST"), Route::Send));
    assert!(matches!(router("/close", "DELETE"), Route::Close));
    for (uri, method) in [
        ("/", "GET"),
        ("", "GET"),
        ("/create", "POST"),
        ("/create", "get"),
        ("/create/", "GET"),
        ("/create?a=b", "GET"),
        ("/Recv", "GET"),
        ("/recv", "DELETE"),
        ("/send", "PUT"),
        ("/close", "POST"),
        ("http://host/create", "GET"),
    ] {
        assert!(matches!(router(uri, method), Route::NotFound));
    }
    assert_reply(&not_found(), 404);
}

#[test]
fn every_response_forbids_caching() {
    assert_reply(&make_response(200, Body::Bytes(vec![1, 2])), 200);
    assert_reply(&make_response(503, Body::Empty), 503);
    assert_reply(&do_response(Handled::Failed), 500);
    assert_reply(&do_response(Handled::Aborted), 500);
    assert_reply(&do_response(Handled::Answered(make_response(404, Body::Empty))), 404);
}

#[test]
fn created_session_is_found() {
    let mut server: Server = ServerState::new(DEST, (2, 900));
    let first = open(&mut server, "first");
    let second = open(&mut server, "second");
    assert!(check_session_id(&first));
    assert_ne!(first, second);
    assert_eq!(server.get_session(&headers_for(&first)).ok(), Some(&"first"));
    assert_eq!(server.get_session(&headers_for(&second)).ok(), Some(&"second"));
    assert_eq!(server.get_session_from_req(&second), Some(&"second"));
    assert_eq!(server.get_session_from_req("none"), None);
}

#[test]
fn identifier_is_made_of_the_bytes_drawn() {
    let server: Server = ServerState::new(DEST, (1, 900));
    let bytes: Vec<u8> = (0..16).map(|i| i * 17).collect();
    match server.begin_create(&bytes) {
        CreateStep::Connect { id, dest } => {
            assert_eq!(id, "00112233445566778899aabbccddeeff");
            assert_eq!(dest, DEST);
        }
        CreateStep::Refuse(_) => panic!("refused"),
    }
}

#[test]
fn requests_without_a_known_session_are_refused() {
    let mut server: Server = ServerState::new(DEST, (2, 900));
    open(&mut server, "entry");
    assert_reply(&server.get_session(&HeaderMap::new()).err().unwrap(), 404);
    assert_reply(&server.get_session(&headers_for("unknown")).err().unwrap(), 404);
    let mut headers = HeaderMap::new();
    headers.insert(
        "x-layline-session",
        HeaderValue::from_bytes(b"\xff\xfe").unwrap(),
    );
    assert_reply(&server.get_session(&headers).err().unwrap(), 500);
}

#[test]
fn sessions_are_limited() {
    let mut server: Server = ServerState::new(DEST, (2, 900));
    let first = open(&mut server, "first");
    open(&mut server, "second");
    match server.do_create() {
        CreateStep::Refuse(reply) => assert_reply(&reply, 500),
        CreateStep::Connect { .. } => panic!("one session too many"),
    }
    // a connection that was begun before the table filled up
    let created = server.finish_create("late".to_string(), Some("late"));
    assert!(!created.entered);
    assert_reply(&created.reply, 500);
    assert_eq!(server.get_session_from_req("late"), None);
    server.shutdown(&mut Session::new(first));
    open(&mut server, "third");
}

#[test]
fn server_without_room_takes_no_session() {
    let server: Server = ServerState::new(DEST, (0, 900));
    assert!(matches!(server.do_create(), CreateStep::Refuse(_)));
}

#[test]
fn failed_connection_makes_no_session() {
    let mut server: Server = ServerState::new(DEST, (2, 900));
    let created = server.finish_create("id".to_string(), None);
    assert!(!created.entered);
    assert_reply(&created.reply, 500);
    assert_eq!(server.get_session_from_req("id"), None);
}

#[test]
fn ended_session_is_not_found_and_others_stay() {
    let mut server: Server = ServerState::new(DEST, (2, 900));
    let first = open(&mut server, "first");
    let second = open(&mut server, "second");
    let mut session = Session::new(first.clone());
    let reply = server.conclude(&mut session, do_close());
    assert_reply(&reply, 200);
    assert!(!session.live.open);
    assert_reply(&server.get_session(&headers_for(&first)).err().unwrap(), 404);
    assert_eq!(server.get_session(&headers_for(&second)).ok(), Some(&"second"));
}

#[test]
fn shutdown_has_an_effect_only_once() {
    let mut server: Server = ServerState::new(DEST, (2, 900));
    let id = open(&mut server, "entry");
    let mut session = Session::new(id.clone());
    server.shutdown(&mut session);
    server.finish_create(id.clone(), Some("again"));
    server.shutdown(&mut session);
    assert_eq!(server.get_session_from_req(&id), Some(&"again"));
}

#[test]
fn send_writes_the_body_and_counts_as_activity() {
    let mut transfer = SendTransfer::new();
    let mut written: Vec<u8> = Vec::new();
    for chunk in [vec![1, 2, 3], vec![], vec![4]] {
        match transfer.on_body(Polled::Chunk(chunk)) {
            SendStep::Write(bytes) => written.extend(bytes),
            SendStep::Finish(_) => panic!("too early"),
        }
        assert!(transfer.on_write(true).is_none());
    }
    assert_eq!(written, vec![1, 2, 3, 4]);
    let verdict = finished(transfer.on_body(Polled::End));
    assert_reply(&verdict.reply, 200);
    assert!(verdict.heartbeat);
    assert!(!verdict.shutdown);
}

#[test]
fn empty_send_is_no_activity() {
    let verdict = finished(SendTransfer::new().on_body(Polled::End));
    assert_reply(&verdict.reply, 200);
    assert!(!verdict.heartbeat);
    let mut transfer = SendTransfer::new();
    assert!(matches!(transfer.on_body(Polled::Chunk(vec![])), SendStep::Write(_)));
    assert!(!finished(transfer.on_body(Polled::End)).heartbeat);
}

#[test]
fn broken_send_ends_the_session() {
    let mut transfer = SendTransfer::new();
    transfer.on_body(Polled::Chunk(vec![1]));
    let verdict = transfer.on_write(false).unwrap();
    assert_reply(&verdict.reply, 500);
    assert!(verdict.shutdown);
    assert!(!verdict.heartbeat);
    let verdict = finished(transfer.on_body(Polled::Failed));
    assert_reply(&verdict.reply, 500);
    assert!(verdict.shutdown);
    assert!(!verdict.heartbeat);
}

#[test]
fn recv_waits_ten_seconds_for_at_most_one_mebibyte() {
    let plan = recv_plan();
    assert_eq!(plan.wait, 10);
    assert_eq!(plan.limit, 1024 * 1024);
}

#[test]
fn recv_hands_on_what_was_read() {
    let verdict = do_recv(ReadOutcome::Read(vec![7, 8]));
    assert_reply(&verdict.reply, 200);
    assert!(matches!(&verdict.reply.body, Body::Bytes(bytes) if bytes == &vec![7u8, 8]));
    assert!(verdict.heartbeat);
    assert!(!verdict.shutdown);
}

#[test]
fn recv_without_bytes_is_no_activity() {
    let verdict = do_recv(ReadOutcome::TimedOut);
    assert_reply(&verdict.reply, 200);
    assert!(matches!(verdict.reply.body, Body::Empty));
    assert!(!verdict.heartbeat);
    assert!(!verdict.shutdown);
}

#[test]
fn recv_at_the_end_of_the_connection_ends_the_session() {
    let verdict = do_recv(ReadOutcome::Read(vec![]));
    assert_reply(&verdict.reply, 200);
    assert!(verdict.shutdown);
    assert!(!verdict.heartbeat);
    let verdict = do_recv(ReadOutcome::Failed);
    assert_reply(&verdict.reply, 500);
    assert!(verdict.shutdown);
}

#[test]
fn verdicts_are_carried_out() {
    let mut server: Server = ServerState::new(DEST, (2, 900));
    let id = open(&mut server, "entry");
    let mut session = Session::new(id.clone());
    server.conclude(&mut session, do_recv(ReadOutcome::Read(vec![1])));
    assert_eq!(session.live.heartbeat, 1);
    server.conclude(&mut session, do_recv(ReadOutcome::TimedOut));
    assert_eq!(session.live.heartbeat, 1);
    assert!(session.live.open);
    assert_eq!(server.get_session_from_req(&id), Some(&"entry"));
    server.conclude(&mut session, do_recv(ReadOutcome::Failed));
    assert!(!session.live.open);
    assert_eq!(session.live.heartbeat, 1);
    assert_eq!(server.get_session_from_req(&id), None);
}

#[test]
fn idle_session_is_taken_out_of_the_table() {
    let mut server: Server = ServerState::new(DEST, (2, 2));
    let id = open(&mut server, "entry");
    let mut session = Session::new(id.clone());
    let (mut dog, pause) = session.start_watch();
    assert_eq!(pause, Some(1));
    assert_eq!(server.timeout_watchdog(&mut session, &mut dog), Some(1));
    assert_eq!(server.timeout_watchdog(&mut session, &mut dog), Some(1));
    assert_eq!(server.get_session_from_req(&id), Some(&"entry"));
    assert_eq!(server.timeout_watchdog(&mut session, &mut dog), None);
    assert!(!session.live.open);
    assert_eq!(server.get_session_from_req(&id), None);
}

#[test]
fn watch_over_a_closed_session_ends_quietly() {
    let mut server: Server = ServerState::new(DEST, (2, 5));
    let id = open(&mut server, "entry");
    let mut session = Session::new(id);
    let (mut dog, pause) = session.start_watch();
    assert_eq!(pause, Some(1));
    server.shutdown(&mut session);
    assert_eq!(server.timeout_watchdog(&mut session, &mut dog), None);
}

#[test]
fn each_server_goes_by_its_own_timeout() {
    for timeout in [0u32, 1, 7] {
        let mut server: Server = ServerState::new(DEST, (1, timeout));
        let id = open(&mut server, "entry");
        let mut session = Session::new(id);
        let (mut dog, _) = session.start_watch();
        for _ in 0..timeout {
            assert_eq!(server.timeout_watchdog(&mut session, &mut dog), Some(1));
            assert!(session.live.open);
        }
        assert_eq!(server.timeout_watchdog(&mut session, &mut dog), None);
        assert!(!session.live.open);
    }
}

#[test]
fn session_in_use_is_kept() {
    let mut server: Server = ServerState::new(DEST, (1, 1));
    let id = open(&mut server, "entry");
    let mut session = Session::new(id.clone());
    let (mut dog, _) = session.start_watch();
    for _ in 0..20 {
        assert_eq!(server.timeout_watchdog(&mut session, &mut dog), Some(1));
        server.conclude(&mut session, do_recv(ReadOutcome::Read(vec![1])));
    }
    assert_eq!(server.get_session_from_req(&id), Some(&"entry"));
}

#[test]
fn closed_session_is_not_watched() {
    let mut server: Server = ServerState::new(DEST, (1, 1));
    let id = open(&mut server, "entry");
    let mut session = Session::new(id);
    server.shutdown(&mut session);
    assert_eq!(session.start_watch().1, None);
}

#[test]
fn server_exit_codes() {
    assert_eq!(exit_code(true), 0);
    assert_eq!(exit_code(false), -1);
}
