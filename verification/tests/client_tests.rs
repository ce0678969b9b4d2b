use layline::client::{
    close_told, do_proxy, exit_code, session_result, validate_url, ApiRequest, ClientError,
    ClientOpStatus, ClientSession, CloseStep, Download, DownloadStep, Ending, IdAnswer, Listener,
    Method, Sink, UploadStep, UrlError, WaitStep,
};
use layline::options::Opts;
use layline::server::{router, Route};
use layline::transfer::{Polled, ReadOutcome};

const ID: &str = "00112233445566778899aabbccddeeff";
const BASE: &str = "https://example.org/abc123/";

fn opts(timeout: u32, allow_plaintext: bool) -> Opts {
    (100, timeout, allow_plaintext, false, "x-forwarded-for".to_string())
}

fn session() -> ClientSession {
    let answer = IdAnswer::Answered { status: 200, text: ID.to_string() };
    let requested = ClientSession::request_session(answer);
    match ClientSession::initialize_session(requested, BASE.to_string(), &opts(3, false)) {
        Ok(session) => session,
        Err(_) => panic!("no session"),
    }
}

fn target(request: &ApiRequest) -> String {
    format!("/{}", request.url.strip_prefix(BASE).unwrap())
}

fn clean(ending: &Ending) -> bool {
    matches!(ending.result, Ok(ClientOpStatus::Done))
}

fn client_error(ending: &Ending) -> bool {
    matches!(ending.result, Err(ClientError::CLIENT(ClientOpStatus::Error)))
}

#[test]
fn https_is_always_accepted() {
    assert!(validate_url("https://example.org/", opts(1, false)).is_ok());
    assert!(validate_url("https://", opts(1, true)).is_ok());
}

#[test]
fn plaintext_is_refused_unless_allowed() {
    let refused = validate_url("http://example.org/", opts(1, false));
    match refused {
        Err(e) => {
            assert!(matches!(e, UrlError::PlaintextRefused));
            assert_eq!(
                e.message(),
                "URL must start with \"https://\" unless --allow-plaintext is set"
            );
        }
        Ok(()) => panic!("accepted"),
    }
    assert!(validate_url("http://example.org/", opts(1, true)).is_ok());
}

#[test]
fn other_schemes_are_refused() {
    for url in ["ftp://example.org/", "", "http:/", "HTTPS://example.org/", "https:/example"] {
        assert!(matches!(
            validate_url(url, opts(1, false)),
            Err(UrlError::PlaintextRefused)
        ));
        match validate_url(url, opts(1, true)) {
            Err(e) => {
                assert!(matches!(e, UrlError::UnknownScheme));
                assert_eq!(e.message(), "URL must start with \"https://\" or \"https://\"");
            }
            Ok(()) => panic!("accepted"),
        }
    }
}

#[test]
fn session_is_requested_with_a_plain_get() {
    let request = ClientSession::get_id(&BASE.to_string());
    assert_eq!(request.url, "https://example.org/abc123/create");
    assert!(matches!(request.method, Method::Get));
    assert!(request.session.is_none());
    assert!(request.body.is_empty());
    assert!(matches!(router(&target(&request), "GET"), Route::Create));
}

#[test]
fn session_answers_are_judged() {
    let answered = |status: u16, text: &str| {
        ClientSession::request_session(IdAnswer::Answered { status, text: text.to_string() })
    };
    assert!(matches!(answered(200, ID), Ok(ClientOpStatus::SessionId(id)) if id == ID));
    for (status, text) in [(500, ID), (404, ID), (201, ID), (200, ""), (200, "0011"), (200, "<html>")] {
        assert!(matches!(
            answered(status, text),
            Err(ClientError::CLIENT(ClientOpStatus::Error))
        ));
    }
    assert!(matches!(
        ClientSession::request_session(IdAnswer::Failed),
        Ok(ClientOpStatus::Error)
    ));
    assert!(matches!(
        ClientSession::request_session(IdAnswer::Aborted),
        Err(ClientError::JOIN)
    ));
}

#[test]
fn session_is_set_up_only_with_an_identifier() {
    let session = session();
    assert_eq!(session.id, ID);
    assert_eq!(session.base_url, BASE);
    assert_eq!(session.timeout, 3);
    assert!(session.live.open);
    assert_eq!(session.live.heartbeat, 0);
    let failed = ClientSession::initialize_session(
        Ok(ClientOpStatus::Error),
        BASE.to_string(),
        &opts(3, false),
    );
    assert!(matches!(failed, Err(ClientError::CLIENT(ClientOpStatus::Error))));
    let failed =
        ClientSession::initialize_session(Err(ClientError::JOIN), BASE.to_string(), &opts(3, false));
    assert!(matches!(failed, Err(ClientError::JOIN)));
}

#[test]
fn close_tells_the_server_once() {
    let mut session = session();
    match session.close() {
        CloseStep::Request(request) => {
            assert!(matches!(request.method, Method::Delete));
            assert_eq!(request.session.as_deref(), Some(ID));
            assert!(matches!(router(&target(&request), "DELETE"), Route::Close));
        }
        CloseStep::Finish(_) => panic!("was open"),
    }
    assert!(!session.live.open);
    assert!(matches!(session.close(), CloseStep::Finish(Ok(ClientOpStatus::OK))));
    assert!(matches!(close_told(true), Ok(ClientOpStatus::Done)));
    assert!(matches!(close_told(false), Err(ClientError::REQWEST)));
}

#[test]
fn local_bytes_are_posted_and_count_as_activity() {
    let mut session = session();
    match session.upload_next() {
        UploadStep::Read(plan) => {
            assert_eq!(plan.limit, 1 << 20);
            assert_eq!(plan.wait, 1);
        }
        _ => panic!("expected a read"),
    }
    match session.copy_sockreader_to_send(ReadOutcome::Read(vec![1, 2, 3])) {
        UploadStep::Post(request) => {
            assert!(matches!(request.method, Method::Post));
            assert_eq!(request.session.as_deref(), Some(ID));
            assert_eq!(request.body, vec![1, 2, 3]);
            assert!(matches!(router(&target(&request), "POST"), Route::Send));
        }
        _ => panic!("expected a request"),
    }
    assert_eq!(session.live.heartbeat, 1);
    assert!(matches!(session.upload_answered(Some(200)), UploadStep::Read(_)));
}

#[test]
fn quiet_local_connection_is_read_again() {
    let mut session = session();
    assert!(matches!(
        session.copy_sockreader_to_send(ReadOutcome::TimedOut),
        UploadStep::Read(_)
    ));
    assert_eq!(session.live.heartbeat, 0);
    session.close();
    match session.copy_sockreader_to_send(ReadOutcome::TimedOut) {
        UploadStep::Stop(ending) => assert!(clean(&ending) && !ending.close),
        _ => panic!("expected the end"),
    }
}

#[test]
fn end_of_the_local_connection_closes_the_session() {
    let mut session = session();
    match session.copy_sockreader_to_send(ReadOutcome::Read(vec![])) {
        UploadStep::Stop(ending) => assert!(clean(&ending) && ending.close),
        _ => panic!("expected the end"),
    }
    match session.copy_sockreader_to_send(ReadOutcome::Failed) {
        UploadStep::Stop(ending) => assert!(client_error(&ending) && !ending.close),
        _ => panic!("expected the end"),
    }
    assert_eq!(session.live.heartbeat, 0);
}

#[test]
fn server_answers_decide_the_upload() {
    let session = session();
    match session.upload_answered(Some(404)) {
        UploadStep::Stop(ending) => assert!(clean(&ending) && ending.close),
        _ => panic!("expected the end"),
    }
    for status in [500, 503, 201, 302] {
        match session.upload_answered(Some(status)) {
            UploadStep::Stop(ending) => assert!(client_error(&ending) && ending.close),
            _ => panic!("expected the end"),
        }
    }
    match session.upload_answered(None) {
        UploadStep::Stop(ending) => {
            assert!(matches!(ending.result, Err(ClientError::REQWEST)) && ending.close)
        }
        _ => panic!("expected the end"),
    }
}

#[test]
fn response_is_written_to_a_socket() {
    let mut session = session();
    let mut download = Download::new(Sink::Stream);
    match session.download_next() {
        DownloadStep::Get(request) => {
            assert!(matches!(request.method, Method::Get));
            assert_eq!(request.session.as_deref(), Some(ID));
            assert!(request.body.is_empty());
            assert!(matches!(router(&target(&request), "GET"), Route::Recv));
        }
        _ => panic!("expected a request"),
    }
    assert!(matches!(download.on_answer(Some(200)), DownloadStep::Poll));
    let mut written: Vec<u8> = Vec::new();
    for chunk in [vec![5, 6], vec![7]] {
        match download.copy_reads_to_sockwriter(&mut session, Polled::Chunk(chunk)) {
            DownloadStep::Write(bytes) => written.extend(bytes),
            _ => panic!("expected a write"),
        }
        assert!(matches!(download.on_write(true), DownloadStep::Poll));
    }
    assert_eq!(written, vec![5, 6, 7]);
    assert_eq!(session.live.heartbeat, 0);
    assert!(matches!(
        download.copy_reads_to_sockwriter(&mut session, Polled::End),
        DownloadStep::Get(_)
    ));
    assert_eq!(session.live.heartbeat, 1);
}

#[test]
fn standard_output_is_flushed_before_the_next_request() {
    let mut session = session();
    let mut download = Download::new(Sink::Stdout);
    download.on_answer(Some(200));
    download.copy_reads_to_sockwriter(&mut session, Polled::Chunk(vec![1]));
    assert!(matches!(
        download.copy_reads_to_sockwriter(&mut session, Polled::End),
        DownloadStep::Flush
    ));
    assert_eq!(session.live.heartbeat, 0);
    assert!(matches!(download.on_flush(&mut session, true), DownloadStep::Get(_)));
    assert_eq!(session.live.heartbeat, 1);
    match download.on_flush(&mut session, false) {
        DownloadStep::Stop(ending) => {
            assert!(matches!(ending.result, Err(ClientError::IO)) && !ending.close)
        }
        _ => panic!("expected the end"),
    }
    assert_eq!(session.live.heartbeat, 1);
}

#[test]
fn empty_response_is_no_activity() {
    let mut session = session();
    for sink in [Sink::Stream, Sink::Stdout] {
        let mut download = Download::new(sink);
        download.on_answer(Some(200));
        assert!(matches!(
            download.copy_reads_to_sockwriter(&mut session, Polled::End),
            DownloadStep::Get(_)
        ));
        assert_eq!(session.live.heartbeat, 0);
    }
}

#[test]
fn bytes_of_an_earlier_response_do_not_count_again() {
    let mut session = session();
    let mut download = Download::new(Sink::Stream);
    download.on_answer(Some(200));
    download.copy_reads_to_sockwriter(&mut session, Polled::Chunk(vec![1]));
    download.copy_reads_to_sockwriter(&mut session, Polled::End);
    download.on_answer(Some(200));
    download.copy_reads_to_sockwriter(&mut session, Polled::End);
    assert_eq!(session.live.heartbeat, 1);
}

#[test]
fn server_answers_decide_the_download() {
    let mut download = Download::new(Sink::Stream);
    match download.on_answer(Some(404)) {
        DownloadStep::Stop(ending) => assert!(clean(&ending) && ending.close),
        _ => panic!("expected the end"),
    }
    match download.on_answer(Some(503)) {
        DownloadStep::Stop(ending) => assert!(client_error(&ending) && ending.close),
        _ => panic!("expected the end"),
    }
    match download.on_answer(None) {
        DownloadStep::Stop(ending) => {
            assert!(matches!(ending.result, Err(ClientError::REQWEST)) && ending.close)
        }
        _ => panic!("expected the end"),
    }
}

#[test]
fn failures_while_copying_a_response_end_the_task() {
    let mut session = session();
    let mut download = Download::new(Sink::Stream);
    match download.copy_reads_to_sockwriter(&mut session, Polled::Failed) {
        DownloadStep::Stop(ending) => {
            assert!(matches!(ending.result, Err(ClientError::REQWEST)) && !ending.close)
        }
        _ => panic!("expected the end"),
    }
    match download.on_write(false) {
        DownloadStep::Stop(ending) => {
            assert!(matches!(ending.result, Err(ClientError::IO)) && !ending.close)
        }
        _ => panic!("expected the end"),
    }
}

#[test]
fn closed_session_stops_its_tasks() {
    let mut session = session();
    session.close();
    match session.upload_next() {
        UploadStep::Stop(ending) => assert!(clean(&ending) && !ending.close),
        _ => panic!("expected the end"),
    }
    match session.download_next() {
        DownloadStep::Stop(ending) => assert!(clean(&ending) && !ending.close),
        _ => panic!("expected the end"),
    }
    match session.upload_answered(Some(200)) {
        UploadStep::Stop(ending) => assert!(clean(&ending) && !ending.close),
        _ => panic!("expected the end"),
    }
}

#[test]
fn idle_client_session_is_closed() {
    let mut session = session();
    let (mut dog, step) = session.start_watch();
    assert!(matches!(step, WaitStep::Sleep(1)));
    for _ in 0..3 {
        assert!(matches!(session.timeout_waiter(&mut dog), WaitStep::Sleep(1)));
    }
    match session.timeout_waiter(&mut dog) {
        WaitStep::Stop(ending) => assert!(clean(&ending) && ending.close),
        WaitStep::Sleep(_) => panic!("expected the end"),
    }
    let (mut dog, _) = session.start_watch();
    session.close();
    match session.timeout_waiter(&mut dog) {
        WaitStep::Stop(ending) => assert!(clean(&ending) && !ending.close),
        WaitStep::Sleep(_) => panic!("expected the end"),
    }
}

#[test]
fn closed_client_session_is_not_watched() {
    let mut session = session();
    session.close();
    match session.start_watch().1 {
        WaitStep::Stop(ending) => assert!(clean(&ending) && !ending.close),
        WaitStep::Sleep(_) => panic!("expected the end"),
    }
}

#[test]
fn hangup_closes_the_session() {
    let mut session = session();
    assert!(matches!(
        session.signal_handler(false),
        CloseStep::Finish(Err(ClientError::CLIENT(ClientOpStatus::Error)))
    ));
    assert!(session.live.open);
    assert!(matches!(session.signal_handler(true), CloseStep::Request(_)));
    assert!(!session.live.open);
    assert!(matches!(
        session.signal_handler(true),
        CloseStep::Finish(Ok(ClientOpStatus::OK))
    ));
}

#[test]
fn results_and_exit_codes() {
    assert!(matches!(session_result(Ok(ClientOpStatus::OK)), Ok(ClientOpStatus::Done)));
    assert!(matches!(session_result(Err(ClientError::IO)), Err(ClientError::IO)));
    assert!(matches!(do_proxy(true), ClientOpStatus::Done));
    assert!(matches!(do_proxy(false), ClientOpStatus::Error));
    assert_eq!(exit_code(Some(ClientOpStatus::Done)), 0);
    assert_eq!(exit_code(Some(ClientOpStatus::Error)), -1);
    assert_eq!(exit_code(Some(ClientOpStatus::OK)), -1);
    assert_eq!(exit_code(Some(ClientOpStatus::SessionId(ID.to_string()))), -1);
    assert_eq!(exit_code(None), -1);
}

#[test]
fn listening_client_limits_its_sessions() {
    let mut listener = Listener::new(2);
    assert!(listener.accept());
    assert!(listener.accept());
    assert!(!listener.accept());
    listener.release();
    assert!(listener.accept());
    assert!(!listener.accept());
    assert!(!Listener::new(0).accept());
}
