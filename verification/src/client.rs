//! The client side: opening a session on the server and copying bytes both ways.

use crate::constants::{BODY_SIZE_LIMIT, ONE_SECOND};
use crate::ident::{check_session_id, is_session_id};
use crate::liveness::{
    fresh_watchdog, law_active_session_is_kept, law_idle_session_expires, next_heartbeat, seen,
    Liveness, WatchStep, Watchdog,
};
use crate::options::Opts;
use crate::text::{has_prefix, starts_with};
use crate::transfer::{Polled, PolledView, ReadOutcome, ReadPlan, ReadView};
use vstd::prelude::*;

verus! {

/// The header that names the session of a request.
pub const SESSION_HEADER: &'static str = "X-Layline-Session";

/// What a client task ends with.
pub enum ClientOpStatus {
    OK,
    Done,
    Error,
    SessionId(String),
}

/// Why a client task failed.
pub enum ClientError {
    /// A decision of the client.
    CLIENT(ClientOpStatus),
    /// A local connection, standard input or standard output.
    IO,
    /// A task that did not run to its end.
    JOIN,
    /// An HTTP request.
    REQWEST,
}

/// How a client task ends.
pub type TaskResult = Result<ClientOpStatus, ClientError>;

/// Why a server URL is not accepted.
pub enum UrlError {
    /// It is not an `https` URL, and plaintext is not allowed.
    PlaintextRefused,
    /// It is neither an `http` nor an `https` URL.
    UnknownScheme,
}

impl UrlError {
    /// Gives the message for the user.
    pub fn message(&self) -> (text: &'static str)
        ensures
            text@ == match self {
                UrlError::PlaintextRefused =>
                    "URL must start with \"https://\" unless --allow-plaintext is set"@,
                UrlError::UnknownScheme => "URL must start with \"https://\" or \"https://\""@,
            },
    {
        match self {
            UrlError::PlaintextRefused =>
                "URL must start with \"https://\" unless --allow-plaintext is set",
            UrlError::UnknownScheme => "URL must start with \"https://\" or \"https://\"",
        }
    }
}

/// Tests the URL of the server: `https`, or also `http` if plaintext is allowed.
pub fn validate_url(base_url: &str, opts: Opts) -> (checked: Result<(), UrlError>)
    ensures
        checked == (if has_prefix(base_url@, "https://"@) {
            Ok(())
        } else if !opts.2 {
            Err(UrlError::PlaintextRefused)
        } else if has_prefix(base_url@, "http://"@) {
            Ok(())
        } else {
            Err(UrlError::UnknownScheme)
        }),
{
    if !starts_with(base_url, "https://") && !opts.2 {
        return Err(UrlError::PlaintextRefused);
    }
    if opts.2 && !(starts_with(base_url, "http://") || starts_with(base_url, "https://")) {
        return Err(UrlError::UnknownScheme);
    }
    Ok(())
}

/// The methods of the API.
#[derive(Clone, Copy)]
pub enum Method {
    Get,
    Post,
    Delete,
}

/// A request on the API.
pub struct ApiRequest {
    pub method: Method,
    pub url: String,
    /// The value of the session header.
    pub session: Option<String>,
    pub body: Vec<u8>,
}

/// What a request on the API says.
#[verifier::ext_equal]
pub struct ApiRequestView {
    pub method: Method,
    pub url: Seq<char>,
    pub session: Option<Seq<char>>,
    pub body: Seq<u8>,
}

impl View for ApiRequest {
    type V = ApiRequestView;

    open spec fn view(&self) -> ApiRequestView {
        ApiRequestView {
            method: self.method,
            url: self.url@,
            session: match self.session {
                Some(id) => Some(id@),
                None => None,
            },
            body: self.body@,
        }
    }
}

/// The request that asks for a session.
pub open spec fn create_request(base_url: Seq<char>) -> ApiRequestView {
    ApiRequestView {
        method: Method::Get,
        url: base_url + "create"@,
        session: None,
        body: Seq::empty(),
    }
}

fn endpoint_url(base_url: &String, name: &str) -> (url: String)
    ensures
        url@ == base_url@ + name@,
{
    let mut url = base_url.clone();
    url.append(name);
    url
}

/// What came of asking the server for a session.
pub enum IdAnswer {
    /// The request failed.
    Failed,
    /// The task that made the request did not run to its end.
    Aborted,
    /// The server answered with this status and this text.
    Answered { status: u16, text: String },
}

/// The end of one of a session's tasks.
pub struct Ending {
    /// Whether the task closes the session.
    pub close: bool,
    pub result: TaskResult,
}

/// The end of a task that ran until the session was closed by another one.
pub open spec fn closed_elsewhere() -> Ending {
    Ending { close: false, result: Ok(ClientOpStatus::Done) }
}

/// How a task ends on the server's answer to its request, if it does: 200 lets it go on, 404 says
/// that the session is over, and anything else, or no answer, is an error that ends the session.
pub open spec fn answer_ending(status: Option<u16>) -> Option<Ending> {
    match status {
        Some(200) => None,
        Some(404) => Some(Ending { close: true, result: Ok(ClientOpStatus::Done) }),
        Some(_) => Some(
            Ending { close: true, result: Err(ClientError::CLIENT(ClientOpStatus::Error)) },
        ),
        None => Some(Ending { close: true, result: Err(ClientError::REQWEST) }),
    }
}

fn ending_on(status: Option<u16>) -> (ending: Option<Ending>)
    ensures
        ending == answer_ending(status),
{
    match status {
        Some(200) => None,
        Some(404) => Some(Ending { close: true, result: Ok(ClientOpStatus::Done) }),
        Some(_) => Some(
            Ending { close: true, result: Err(ClientError::CLIENT(ClientOpStatus::Error)) },
        ),
        None => Some(Ending { close: true, result: Err(ClientError::REQWEST) }),
    }
}

/// What closing a session needs done.
pub enum CloseStep {
    /// Make this request.
    Request(ApiRequest),
    /// Nothing: the session was closed before.
    Finish(TaskResult),
}

/// What closing a session needs done, over what the request says.
#[verifier::ext_equal]
pub enum CloseStepView {
    Request(ApiRequestView),
    Finish(TaskResult),
}

impl View for CloseStep {
    type V = CloseStepView;

    open spec fn view(&self) -> CloseStepView {
        match self {
            CloseStep::Request(request) => CloseStepView::Request(request@),
            CloseStep::Finish(result) => CloseStepView::Finish(*result),
        }
    }
}

/// What the task that copies local bytes to the server needs done.
pub enum UploadStep {
    /// Read from the local connection.
    Read(ReadPlan),
    /// Make this request.
    Post(ApiRequest),
    /// Nothing more.
    Stop(Ending),
}

/// What the task that copies local bytes to the server needs done, over what the request says.
#[verifier::ext_equal]
pub enum UploadStepView {
    Read(ReadPlan),
    Post(ApiRequestView),
    Stop(Ending),
}

impl View for UploadStep {
    type V = UploadStepView;

    open spec fn view(&self) -> UploadStepView {
        match self {
            UploadStep::Read(plan) => UploadStepView::Read(*plan),
            UploadStep::Post(request) => UploadStepView::Post(request@),
            UploadStep::Stop(ending) => UploadStepView::Stop(*ending),
        }
    }
}

/// What the task that copies the server's bytes to the local connection needs done.
pub enum DownloadStep {
    /// Make this request.
    Get(ApiRequest),
    /// Ask the body of the response for more.
    Poll,
    /// Write these bytes to the local connection.
    Write(Vec<u8>),
    /// Flush the local connection.
    Flush,
    /// Nothing more.
    Stop(Ending),
}

/// What the task that copies the server's bytes needs done, over the bytes and the request.
#[verifier::ext_equal]
pub enum DownloadStepView {
    Get(ApiRequestView),
    Poll,
    Write(Seq<u8>),
    Flush,
    Stop(Ending),
}

impl View for DownloadStep {
    type V = DownloadStepView;

    open spec fn view(&self) -> DownloadStepView {
        match self {
            DownloadStep::Get(request) => DownloadStepView::Get(request@),
            DownloadStep::Poll => DownloadStepView::Poll,
            DownloadStep::Write(bytes) => DownloadStepView::Write(bytes@),
            DownloadStep::Flush => DownloadStepView::Flush,
            DownloadStep::Stop(ending) => DownloadStepView::Stop(*ending),
        }
    }
}

/// What the task that waits for the inactivity timeout needs done.
pub enum WaitStep {
    /// Wait this many seconds.
    Sleep(u64),
    /// Nothing more.
    Stop(Ending),
}

/// The local end of a session, seen from the writing side: a socket takes bytes at once, standard
/// output keeps them until it is flushed.
#[derive(Clone, Copy)]
pub enum Sink {
    Stream,
    Stdout,
}

/// A session of the client, without its connections.
pub struct ClientSession {
    /// The identifier that the server gave.
    pub id: String,
    /// The URL of the API, with its scheme.
    pub base_url: String,
    pub live: Liveness,
    /// The inactivity timeout in seconds.
    pub timeout: u32,
}

/// What a client session is.
#[verifier::ext_equal]
pub struct ClientView {
    pub id: Seq<char>,
    pub base_url: Seq<char>,
    pub live: Liveness,
    pub timeout: u32,
}

impl View for ClientSession {
    type V = ClientView;

    open spec fn view(&self) -> ClientView {
        ClientView {
            id: self.id@,
            base_url: self.base_url@,
            live: self.live,
            timeout: self.timeout,
        }
    }
}

impl ClientView {
    /// A request of this session on the endpoint called `name`.
    pub open spec fn request(self, method: Method, name: Seq<char>, body: Seq<u8>)
        -> ApiRequestView {
        ApiRequestView { method, url: self.base_url + name, session: Some(self.id), body }
    }

    /// The session, marked as in use.
    pub open spec fn beaten(self) -> ClientView {
        ClientView {
            live: Liveness { heartbeat: next_heartbeat(self.live.heartbeat), ..self.live },
            ..self
        }
    }

    /// Closing the session: the first time, the server is told.
    pub open spec fn closing(self) -> (ClientView, CloseStepView) {
        (
            ClientView { live: Liveness { open: false, ..self.live }, ..self },
            if self.live.open {
                CloseStepView::Request(self.request(Method::Delete, "close"@, Seq::empty()))
            } else {
                CloseStepView::Finish(Ok(ClientOpStatus::OK))
            },
        )
    }

    /// The watchdog of the session after a look at it, and what the task that waits for the
    /// timeout needs done. What is tolerated is the timeout of the session.
    pub open spec fn watched(self, watchdog: Watchdog) -> (Watchdog, WaitStep) {
        let (after, step) = watchdog.look(self.timeout, self.live.open, self.live.heartbeat);
        (
            after,
            match step {
                WatchStep::Sleep(seconds) => WaitStep::Sleep(seconds),
                WatchStep::Expire => WaitStep::Stop(
                    Ending { close: true, result: Ok(ClientOpStatus::Done) },
                ),
                WatchStep::Stop => WaitStep::Stop(closed_elsewhere()),
            },
        )
    }

    /// Each round of the upload begins with a read, as long as the session is open.
    pub open spec fn upload_round(self) -> UploadStepView {
        if self.live.open {
            UploadStepView::Read(ReadPlan { limit: BODY_SIZE_LIMIT, wait: ONE_SECOND })
        } else {
            UploadStepView::Stop(closed_elsewhere())
        }
    }

    /// The upload after a read: bytes are sent on and count as use of the session; the end of the
    /// local connection closes it.
    pub open spec fn upload_read(self, outcome: ReadView) -> (ClientView, UploadStepView) {
        match outcome {
            ReadView::TimedOut => (self, self.upload_round()),
            ReadView::Failed => (
                self,
                UploadStepView::Stop(
                    Ending {
                        close: false,
                        result: Err(ClientError::CLIENT(ClientOpStatus::Error)),
                    },
                ),
            ),
            ReadView::Read(bytes) => if bytes.len() == 0 {
                (
                    self,
                    UploadStepView::Stop(Ending { close: true, result: Ok(ClientOpStatus::Done) }),
                )
            } else {
                (
                    self.beaten(),
                    UploadStepView::Post(self.request(Method::Post, "send"@, bytes)),
                )
            },
        }
    }

    /// The upload after the server answered, or did not.
    pub open spec fn upload_answer(self, status: Option<u16>) -> UploadStepView {
        match answer_ending(status) {
            Some(ending) => UploadStepView::Stop(ending),
            None => self.upload_round(),
        }
    }

    /// Each round of the download begins with a request, as long as the session is open.
    pub open spec fn download_round(self) -> DownloadStepView {
        if self.live.open {
            DownloadStepView::Get(self.request(Method::Get, "recv"@, Seq::empty()))
        } else {
            DownloadStepView::Stop(closed_elsewhere())
        }
    }
}

impl ClientSession {
    /// Gives the request that asks the server for a session.
    pub fn get_id(base_url: &String) -> (request: ApiRequest)
        ensures
            request@ == create_request(base_url@),
    {
        ApiRequest {
            method: Method::Get,
            url: endpoint_url(base_url, "create"),
            session: None,
            body: Vec::new(),
        }
    }

    /// Decides whether the server gave a session: a well-formed identifier with status 200.
    pub fn request_session(answer: IdAnswer) -> (result: TaskResult)
        ensures
            result == match answer {
                IdAnswer::Failed => Ok(ClientOpStatus::Error),
                IdAnswer::Aborted => Err(ClientError::JOIN),
                IdAnswer::Answered { status, text } => if status == 200 && is_session_id(text@) {
                    Ok(ClientOpStatus::SessionId(text))
                } else {
                    Err(ClientError::CLIENT(ClientOpStatus::Error))
                },
            },
    {
        match answer {
            IdAnswer::Failed => Ok(ClientOpStatus::Error),
            IdAnswer::Aborted => Err(ClientError::JOIN),
            IdAnswer::Answered { status, text } => {
                if status != 200 {
                    return Err(ClientError::CLIENT(ClientOpStatus::Error));
                }
                if !check_session_id(text.as_str()) {
                    return Err(ClientError::CLIENT(ClientOpStatus::Error));
                }
                Ok(ClientOpStatus::SessionId(text))
            },
        }
    }

    /// Sets up the session that the server gave, if it gave one.
    pub fn initialize_session(requested: TaskResult, base_url: String, opts: &Opts) -> (session:
        Result<ClientSession, ClientError>)
        ensures
            match requested {
                Ok(ClientOpStatus::SessionId(id)) => session == Ok::<ClientSession, ClientError>(
                    ClientSession {
                        id,
                        base_url,
                        live: Liveness { open: true, heartbeat: 0 },
                        timeout: opts.1,
                    },
                ),
                Ok(status) => session == Err::<ClientSession, ClientError>(
                    ClientError::CLIENT(status),
                ),
                Err(error) => session == Err::<ClientSession, ClientError>(error),
            },
    {
        match requested {
            Ok(ClientOpStatus::SessionId(id)) => Ok(
                ClientSession { id, base_url, live: Liveness::new(), timeout: opts.1 },
            ),
            Ok(status) => Err(ClientError::CLIENT(status)),
            Err(error) => Err(error),
        }
    }

    fn request(&self, method: Method, name: &str, body: Vec<u8>) -> (request: ApiRequest)
        ensures
            request@ == self@.request(method, name@, body@),
    {
        ApiRequest {
            method,
            url: endpoint_url(&self.base_url, name),
            session: Some(self.id.clone()),
            body,
        }
    }

    /// Closes the session. All its tasks stop, and the first call tells the server.
    pub fn close(&mut self) -> (step: CloseStep)
        ensures
            (final(self)@, step@) == old(self)@.closing(),
    {
        if !self.live.close() {
            return CloseStep::Finish(Ok(ClientOpStatus::OK));
        }
        CloseStep::Request(self.request(Method::Delete, "close", Vec::new()))
    }

    /// Closes the session when the hangup signal has come; `listening` is false if the signal could
    /// not be waited for.
    pub fn signal_handler(&mut self, listening: bool) -> (step: CloseStep)
        ensures
            (final(self)@, step@) == if listening {
                old(self)@.closing()
            } else {
                (
                    old(self)@,
                    CloseStepView::Finish(Err(ClientError::CLIENT(ClientOpStatus::Error))),
                )
            },
    {
        if listening {
            self.close()
        } else {
            CloseStep::Finish(Err(ClientError::CLIENT(ClientOpStatus::Error)))
        }
    }

    /// Starts to watch the session for inactivity.
    pub fn start_watch(&self) -> (started: (Watchdog, WaitStep))
        ensures
            started.0 == fresh_watchdog(self.live.heartbeat),
            started.1 == if self.live.open {
                WaitStep::Sleep(ONE_SECOND)
            } else {
                WaitStep::Stop(closed_elsewhere())
            },
    {
        let (watchdog, step) = Watchdog::start(&self.live);
        match step {
            WatchStep::Sleep(seconds) => (watchdog, WaitStep::Sleep(seconds)),
            _ => (
                watchdog,
                WaitStep::Stop(Ending { close: false, result: Ok(ClientOpStatus::Done) }),
            ),
        }
    }

    /// Looks at the session after a pause, and closes it if it has been idle for longer than its
    /// timeout.
    pub fn timeout_waiter(&self, watchdog: &mut Watchdog) -> (step: WaitStep)
        ensures
            (*final(watchdog), step) == self@.watched(*old(watchdog)),
    {
        match watchdog.tick(self.timeout, &self.live) {
            WatchStep::Sleep(seconds) => WaitStep::Sleep(seconds),
            WatchStep::Expire => WaitStep::Stop(
                Ending { close: true, result: Ok(ClientOpStatus::Done) },
            ),
            WatchStep::Stop => WaitStep::Stop(
                Ending { close: false, result: Ok(ClientOpStatus::Done) },
            ),
        }
    }

    /// Begins a round of copying local bytes to the server.
    pub fn upload_next(&self) -> (step: UploadStep)
        ensures
            step@ == self@.upload_round(),
    {
        if self.live.open {
            UploadStep::Read(ReadPlan { limit: BODY_SIZE_LIMIT, wait: ONE_SECOND })
        } else {
            UploadStep::Stop(Ending { close: false, result: Ok(ClientOpStatus::Done) })
        }
    }

    /// Goes on copying local bytes to the server after a read.
    pub fn copy_sockreader_to_send(&mut self, outcome: ReadOutcome) -> (step: UploadStep)
        ensures
            (final(self)@, step@) == old(self)@.upload_read(outcome@),
    {
        match outcome {
            ReadOutcome::TimedOut => self.upload_next(),
            ReadOutcome::Failed => UploadStep::Stop(
                Ending {
                    close: false,
                    result: Err(ClientError::CLIENT(ClientOpStatus::Error)),
                },
            ),
            ReadOutcome::Read(bytes) => {
                if bytes.len() == 0 {
                    return UploadStep::Stop(
                        Ending { close: true, result: Ok(ClientOpStatus::Done) },
                    );
                }
                self.live.beat();
                UploadStep::Post(self.request(Method::Post, "send", bytes))
            },
        }
    }

    /// Goes on copying local bytes to the server after its answer; `None` if the request failed.
    pub fn upload_answered(&self, status: Option<u16>) -> (step: UploadStep)
        ensures
            step@ == self@.upload_answer(status),
    {
        match ending_on(status) {
            Some(ending) => UploadStep::Stop(ending),
            None => self.upload_next(),
        }
    }

    /// Begins a round of copying the server's bytes to the local connection.
    pub fn download_next(&self) -> (step: DownloadStep)
        ensures
            step@ == self@.download_round(),
    {
        if self.live.open {
            DownloadStep::Get(self.request(Method::Get, "recv", Vec::new()))
        } else {
            DownloadStep::Stop(Ending { close: false, result: Ok(ClientOpStatus::Done) })
        }
    }
}

/// The task that copies the server's bytes to the local connection.
pub struct Download {
    pub sink: Sink,
    /// Whether a byte of this response has been passed on.
    pub did_write: bool,
}

impl Download {
    /// The download after the server answered, or did not.
    pub open spec fn answer(self, status: Option<u16>) -> (Download, DownloadStepView) {
        match answer_ending(status) {
            Some(ending) => (self, DownloadStepView::Stop(ending)),
            None => (Download { did_write: false, ..self }, DownloadStepView::Poll),
        }
    }

    /// The download and its session after the body of a response was asked for more: a chunk is
    /// passed on; at the end, bytes that were passed on are flushed and count as use of the
    /// session.
    pub open spec fn polled(self, session: ClientView, polled: PolledView) -> (
        Download,
        ClientView,
        DownloadStepView,
    ) {
        match polled {
            PolledView::Chunk(bytes) => (
                Download { did_write: self.did_write || bytes.len() > 0, ..self },
                session,
                DownloadStepView::Write(bytes),
            ),
            PolledView::Failed => (
                self,
                session,
                DownloadStepView::Stop(Ending { close: false, result: Err(ClientError::REQWEST) }),
            ),
            PolledView::End => if !self.did_write {
                (self, session, session.download_round())
            } else if self.sink is Stdout {
                (self, session, DownloadStepView::Flush)
            } else {
                (self, session.beaten(), session.download_round())
            },
        }
    }

    /// The session after the local connection was flushed, and what the download needs done.
    pub open spec fn flushed(self, session: ClientView, flushed: bool) -> (
        ClientView,
        DownloadStepView,
    ) {
        if flushed {
            (session.beaten(), session.download_round())
        } else {
            (
                session,
                DownloadStepView::Stop(Ending { close: false, result: Err(ClientError::IO) }),
            )
        }
    }

    /// Begins with no response yet.
    pub fn new(sink: Sink) -> (download: Download)
        ensures
            download == (Download { sink, did_write: false }),
    {
        Download { sink, did_write: false }
    }

    /// Goes on after the server's answer; `None` if the request failed.
    pub fn on_answer(&mut self, status: Option<u16>) -> (step: DownloadStep)
        ensures
            (*final(self), step@) == old(self).answer(status),
    {
        match ending_on(status) {
            Some(ending) => DownloadStep::Stop(ending),
            None => {
                self.did_write = false;
                DownloadStep::Poll
            },
        }
    }

    /// Goes on copying the server's bytes after the body of a response was asked for more.
    pub fn copy_reads_to_sockwriter(
        &mut self,
        session: &mut ClientSession,
        polled: Polled,
    ) -> (step: DownloadStep)
        ensures
            (*final(self), final(session)@, step@) == old(self).polled(old(session)@, polled@),
    {
        match polled {
            Polled::Chunk(bytes) => {
                if bytes.len() > 0 {
                    self.did_write = true;
                }
                DownloadStep::Write(bytes)
            },
            Polled::Failed => DownloadStep::Stop(
                Ending { close: false, result: Err(ClientError::REQWEST) },
            ),
            Polled::End => {
                if self.did_write {
                    match self.sink {
                        Sink::Stdout => return DownloadStep::Flush,
                        Sink::Stream => session.live.beat(),
                    }
                }
                session.download_next()
            },
        }
    }

    /// Goes on after a write to the local connection.
    pub fn on_write(&self, written: bool) -> (step: DownloadStep)
        ensures
            step@ == if written {
                DownloadStepView::Poll
            } else {
                DownloadStepView::Stop(Ending { close: false, result: Err(ClientError::IO) })
            },
    {
        if written {
            DownloadStep::Poll
        } else {
            DownloadStep::Stop(Ending { close: false, result: Err(ClientError::IO) })
        }
    }

    /// Goes on after the local connection was flushed.
    pub fn on_flush(&self, session: &mut ClientSession, flushed: bool) -> (step: DownloadStep)
        ensures
            (final(session)@, step@) == self.flushed(old(session)@, flushed),
    {
        if flushed {
            session.live.beat();
            session.download_next()
        } else {
            DownloadStep::Stop(Ending { close: false, result: Err(ClientError::IO) })
        }
    }
}

/// Gives the result of closing a session after the server was told, or could not be told.
/// Whatever the server answers, the session is closed.
pub fn close_told(answered: bool) -> (result: TaskResult)
    ensures
        result == if answered {
            Ok::<ClientOpStatus, ClientError>(ClientOpStatus::Done)
        } else {
            Err::<ClientOpStatus, ClientError>(ClientError::REQWEST)
        },
{
    if answered {
        Ok(ClientOpStatus::Done)
    } else {
        Err(ClientError::REQWEST)
    }
}

/// Gives the result of a session whose inactivity task has ended.
pub fn session_result(waited: TaskResult) -> (result: TaskResult)
    ensures
        result == match waited {
            Ok(_) => Ok(ClientOpStatus::Done),
            Err(error) => Err(error),
        },
{
    match waited {
        Ok(_) => Ok(ClientOpStatus::Done),
        Err(error) => Err(error),
    }
}

/// Gives the status of a proxy run; `joined` tells whether its session ran to its end, well or
/// not.
pub fn do_proxy(joined: bool) -> (status: ClientOpStatus)
    ensures
        status == if joined {
            ClientOpStatus::Done
        } else {
            ClientOpStatus::Error
        },
{
    if joined {
        ClientOpStatus::Done
    } else {
        ClientOpStatus::Error
    }
}

/// Gives the exit code of the program; `None` if the client failed.
pub fn exit_code(outcome: Option<ClientOpStatus>) -> (code: i32)
    ensures
        code == if outcome == Some(ClientOpStatus::Done) {
            0i32
        } else {
            -1i32
        },
{
    match outcome {
        Some(ClientOpStatus::Done) => 0,
        _ => -1,
    }
}

/// The sessions of a client that listens for local connections.
pub struct Listener {
    active: usize,
    max_sessions: usize,
}

/// How many sessions a listening client has, and how many it may have.
pub struct ListenerView {
    pub active: nat,
    pub max_sessions: nat,
}

impl View for Listener {
    type V = ListenerView;

    closed spec fn view(&self) -> ListenerView {
        ListenerView { active: self.active as nat, max_sessions: self.max_sessions as nat }
    }
}

impl ListenerView {
    /// The client never has more sessions than it is allowed.
    pub open spec fn within_limit(self) -> bool {
        self.active <= self.max_sessions
    }
}

impl Listener {
    /// A client without sessions.
    pub fn new(max_sessions: usize) -> (listener: Listener)
        ensures
            listener@ == (ListenerView { active: 0, max_sessions: max_sessions as nat }),
            listener@.within_limit(),
    {
        Listener { active: 0, max_sessions }
    }

    /// Takes in a local connection, if there is room for another session.
    pub fn accept(&mut self) -> (accepted: bool)
        requires
            old(self)@.within_limit(),
        ensures
            final(self)@.within_limit(),
            accepted == (old(self)@.active < old(self)@.max_sessions),
            final(self)@ == (ListenerView {
                active: if accepted {
                    old(self)@.active + 1
                } else {
                    old(self)@.active
                },
                ..old(self)@
            }),
    {
        if self.active < self.max_sessions {
            self.active = self.active + 1;
            true
        } else {
            false
        }
    }

    /// Notes the end of a session that was taken in.
    pub fn release(&mut self)
        requires
            old(self)@.within_limit(),
        ensures
            final(self)@.within_limit(),
            final(self)@ == (ListenerView {
                active: if old(self)@.active > 0 {
                    (old(self)@.active - 1) as nat
                } else {
                    0
                },
                ..old(self)@
            }),
    {
        if self.active > 0 {
            self.active = self.active - 1;
        }
    }
}

/// A client session that stays idle is kept for as many looks as its timeout says, and closed at
/// the next one.
pub proof fn law_idle_client_session_is_closed(session: ClientView, looks: Seq<u64>)
    requires
        session.live.open,
        looks.len() <= session.timeout,
        forall|i: int| 0 <= i < looks.len() ==> looks[i] == session.live.heartbeat,
    ensures
        session.watched(
            fresh_watchdog(session.live.heartbeat).after(session.timeout, looks),
        ).1 == (if looks.len() < session.timeout {
            WaitStep::Sleep(ONE_SECOND)
        } else {
            WaitStep::Stop(Ending { close: true, result: Ok(ClientOpStatus::Done) })
        }),
{
    law_idle_session_expires(session.timeout, session.live.heartbeat, looks);
}

/// A client session is closed for inactivity only when its counter has not moved over one look
/// more than its timeout says.
pub proof fn law_used_client_session_is_kept(
    session: ClientView,
    heartbeat: u64,
    looks: Seq<u64>,
)
    requires
        session.live.open,
        !(looks.len() >= session.timeout && forall|back: int|
            0 <= back <= session.timeout ==> seen(heartbeat, looks, back)
                == session.live.heartbeat),
    ensures
        session.watched(fresh_watchdog(heartbeat).after(session.timeout, looks)).1
            == WaitStep::Sleep(ONE_SECOND),
{
    let watchdog = fresh_watchdog(heartbeat).after(session.timeout, looks);
    let live = session.live;
    if watchdog.look(session.timeout, live.open, live.heartbeat).1 is Expire {
        law_active_session_is_kept(
            session.timeout,
            heartbeat,
            looks,
            live.open,
            live.heartbeat,
        );
    }
}

} // verus!
