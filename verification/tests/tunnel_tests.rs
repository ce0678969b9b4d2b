use hyper::header::HeaderValue;
use hyper::HeaderMap;
use layline::client::{
    self, ClientOpStatus, ClientSession, Download, DownloadStep, IdAnswer, Sink, UploadStep,
};
use layline::reply::Body;
use layline::server::{do_close, do_recv, CreateStep, SendStep, SendTransfer, ServerState, Session};
use layline::transfer::{Polled, ReadOutcome};

type Server = ServerState<(), u8>;

fn connect(server: &mut Server) -> (ClientSession, Session) {
    let id = match server.do_create() {
        CreateStep::Connect { id, .. } => id,
        CreateStep::Refuse(_) => panic!("refused"),
    };
    let reply = server.finish_create(id.clone(), Some(1)).reply;
    let text = match reply.body {
        Body::Text(text) => text,
        _ => panic!("no identifier"),
    };
    let answer = IdAnswer::Answered { status: reply.status, text };
    let opts = (1, 900, false, false, String::new());
    let requested = ClientSession::request_session(answer);
    match ClientSession::initialize_session(requested, "https://h/".to_string(), &opts) {
        Ok(local) => (local, Session::new(id)),
        Err(_) => panic!("not accepted"),
    }
}

fn headers_of(id: Option<String>) -> HeaderMap<HeaderValue> {
    let mut headers = HeaderMap::new();
    headers.insert(
        client::SESSION_HEADER,
        HeaderValue::from_str(&id.unwrap()).unwrap(),
    );
    headers
}

#[test]
fn bytes_go_up_unchanged() {
    let mut server: Server = ServerState::new((), (1, 900));
    let (mut local, mut remote) = connect(&mut server);
    let mut delivered: Vec<u8> = Vec::new();
    let sent: Vec<u8> = (0..200).collect();
    for piece in sent.chunks(7) {
        let request = match local.copy_sockreader_to_send(ReadOutcome::Read(piece.to_vec())) {
            UploadStep::Post(request) => request,
            _ => panic!("expected a request"),
        };
        assert!(server.get_session(&headers_of(request.session)).is_ok());
        let mut transfer = SendTransfer::new();
        for chunk in request.body.chunks(3) {
            if let SendStep::Write(bytes) = transfer.on_body(Polled::Chunk(chunk.to_vec())) {
                delivered.extend(bytes);
            }
            assert!(transfer.on_write(true).is_none());
        }
        let verdict = match transfer.on_body(Polled::End) {
            SendStep::Finish(verdict) => verdict,
            SendStep::Write(_) => panic!("expected the end"),
        };
        let reply = server.conclude(&mut remote, verdict);
        assert!(matches!(local.upload_answered(Some(reply.status)), UploadStep::Read(_)));
    }
    match local.copy_sockreader_to_send(ReadOutcome::Read(vec![])) {
        UploadStep::Stop(ending) => assert!(ending.close),
        _ => panic!("expected the end"),
    }
    assert_eq!(delivered, sent);
    assert_eq!(local.live.heartbeat, 29);
    assert_eq!(remote.live.heartbeat, 29);
}

#[test]
fn bytes_come_down_unchanged() {
    let mut server: Server = ServerState::new((), (1, 900));
    let (mut local, mut remote) = connect(&mut server);
    let mut download = Download::new(Sink::Stdout);
    let mut received: Vec<u8> = Vec::new();
    let sent: Vec<u8> = (50..250).collect();
    for piece in sent.chunks(64) {
        let reply = server.conclude(&mut remote, do_recv(ReadOutcome::Read(piece.to_vec())));
        assert!(matches!(download.on_answer(Some(reply.status)), DownloadStep::Poll));
        let body = match reply.body {
            Body::Bytes(bytes) => bytes,
            _ => panic!("expected bytes"),
        };
        for chunk in body.chunks(10) {
            let polled = Polled::Chunk(chunk.to_vec());
            if let DownloadStep::Write(bytes) =
                download.copy_reads_to_sockwriter(&mut local, polled)
            {
                received.extend(bytes);
            }
        }
        download.copy_reads_to_sockwriter(&mut local, Polled::End);
        assert!(matches!(download.on_flush(&mut local, true), DownloadStep::Get(_)));
    }
    let reply = server.conclude(&mut remote, do_recv(ReadOutcome::Read(vec![])));
    assert!(matches!(download.on_answer(Some(reply.status)), DownloadStep::Poll));
    assert!(matches!(&reply.body, Body::Bytes(bytes) if bytes.is_empty()));
    assert!(matches!(
        download.copy_reads_to_sockwriter(&mut local, Polled::End),
        DownloadStep::Get(_)
    ));
    assert!(!remote.live.open);
    assert_eq!(received, sent);
    assert_eq!(local.live.heartbeat, 4);
}

#[test]
fn remote_disconnect_closes_the_client_cleanly() {
    let mut server: Server = ServerState::new((), (1, 900));
    let (local, mut remote) = connect(&mut server);
    server.conclude(&mut remote, do_close());
    let refused = server.get_session(&headers_of(Some(local.id.clone()))).err().unwrap();
    assert_eq!(refused.status, 404);
    match local.upload_answered(Some(refused.status)) {
        UploadStep::Stop(ending) => {
            assert!(ending.close);
            assert!(matches!(ending.result, Ok(ClientOpStatus::Done)));
        }
        _ => panic!("expected the end"),
    }
}
