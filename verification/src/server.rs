//! The server side: routing, the session table, and what each request does.

use crate::constants::{BODY_SIZE_LIMIT, LONG_POLL_TIMEOUT, ONE_SECOND};
use crate::headers::{header_contents, header_reading, read_header, HeaderRead};
use crate::ident::{
    draw_id_bytes, encode_id, id_text, is_session_id, law_issued_ids_are_well_formed,
};
use crate::liveness::{
    fresh_watchdog, law_active_session_is_kept, law_idle_session_expires, next_heartbeat, seen,
    Liveness, WatchStep, Watchdog,
};
use crate::reply::{make_response, response, Body, BodyView, Reply, ReplyView};
use crate::text::same_text;
use crate::transfer::{Polled, PolledView, ReadOutcome, ReadPlan, ReadView};
use hyper::header::HeaderValue;
use hyper::HeaderMap;
use vstd::hash_map::StringHashMap;
use vstd::prelude::*;

verus! {

/// The header that names the session of a request.
pub const SESSION_HEADER: &'static str = "x-layline-session";

/// The handlers of the API.
pub enum Route {
    Create,
    Recv,
    Send,
    Close,
    NotFound,
}

/// The handler for a request target and a method. Both are taken literally.
pub open spec fn route_of(uri: Seq<char>, method: Seq<char>) -> Route {
    if uri == "/create"@ && method == "GET"@ {
        Route::Create
    } else if uri == "/recv"@ && method == "GET"@ {
        Route::Recv
    } else if uri == "/send"@ && method == "POST"@ {
        Route::Send
    } else if uri == "/close"@ && method == "DELETE"@ {
        Route::Close
    } else {
        Route::NotFound
    }
}

/// Picks the handler of a request.
pub fn router(uri: &str, method: &str) -> (route: Route)
    ensures
        route == route_of(uri@, method@),
{
    if same_text(uri, "/create") && same_text(method, "GET") {
        Route::Create
    } else if same_text(uri, "/recv") && same_text(method, "GET") {
        Route::Recv
    } else if same_text(uri, "/send") && same_text(method, "POST") {
        Route::Send
    } else if same_text(uri, "/close") && same_text(method, "DELETE") {
        Route::Close
    } else {
        Route::NotFound
    }
}

/// Gives the response to a request that no handler takes.
pub fn not_found() -> (reply: Reply)
    ensures
        reply@ == response(404, BodyView::Empty),
{
    make_response(404, Body::Empty)
}

/// One tunneled connection, without its socket.
pub struct Session {
    pub id: String,
    pub live: Liveness,
}

impl Session {
    /// The session that a new connection gets.
    pub fn new(id: String) -> (session: Session)
        ensures
            session.id == id,
            session.live == (Liveness { open: true, heartbeat: 0 }),
    {
        Session { id, live: Liveness::new() }
    }

    /// Starts the watch over the session. Gives the seconds to the first look, or `None` when the
    /// session is closed already and the watch is over.
    pub fn start_watch(&self) -> (started: (Watchdog, Option<u64>))
        ensures
            started.0 == fresh_watchdog(self.live.heartbeat),
            started.1 == if self.live.open {
                Some(ONE_SECOND)
            } else {
                None
            },
    {
        let (watchdog, step) = Watchdog::start(&self.live);
        match step {
            WatchStep::Sleep(seconds) => (watchdog, Some(seconds)),
            _ => (watchdog, None),
        }
    }
}

/// The server: where it connects to, its limits, and its session table. `A` is an address, `S`
/// what the server keeps for each session.
#[verifier::reject_recursive_types(S)]
pub struct ServerState<A, S> {
    sessions: StringHashMap<S>,
    dest: A,
    max_sessions: usize,
    session_timeout: u32,
}

/// What a server is set to and what its table holds.
#[verifier::reject_recursive_types(S)]
#[verifier::ext_equal]
pub struct ServerView<A, S> {
    pub sessions: Map<Seq<char>, S>,
    pub dest: A,
    pub max_sessions: usize,
    pub session_timeout: u32,
}

impl<A, S> ServerView<A, S> {
    /// The server never has more sessions than it is allowed.
    pub open spec fn within_limit(self) -> bool {
        &&& self.sessions.dom().finite()
        &&& self.sessions.len() <= self.max_sessions
    }

    /// Whether the server cannot take another session.
    pub open spec fn is_full(self) -> bool {
        self.sessions.len() >= self.max_sessions
    }
}

impl<A, S> ServerView<A, S> {
    /// The server and the session after the session was told to end: the first time it leaves the
    /// table, after that nothing changes.
    pub open spec fn ended(self, id: Seq<char>, live: Liveness) -> (ServerView<A, S>, Liveness) {
        (
            if live.open {
                ServerView { sessions: self.sessions.remove(id), ..self }
            } else {
                self
            },
            Liveness { open: false, ..live },
        )
    }

    /// The server, a session and its watchdog after a look at the session, and the seconds to the
    /// next look, if there is one. What is tolerated is the timeout of the server.
    pub open spec fn watched(self, id: Seq<char>, live: Liveness, watchdog: Watchdog) -> (
        ServerView<A, S>,
        Liveness,
        Watchdog,
        Option<u64>,
    ) {
        let (after, step) = watchdog.look(self.session_timeout, live.open, live.heartbeat);
        match step {
            WatchStep::Sleep(seconds) => (self, live, after, Some(seconds)),
            WatchStep::Expire => (self.ended(id, live).0, self.ended(id, live).1, after, None),
            WatchStep::Stop => (self, live, after, None),
        }
    }
}

/// Finds the session that a request names, or the response that refuses the request: 404 where
/// it names none or one that is not in the table, 500 where what it names cannot be read.
pub open spec fn session_lookup<S>(
    headers: Map<Seq<char>, Seq<Seq<u8>>>,
    sessions: Map<Seq<char>, S>,
) -> Result<S, ReplyView> {
    match header_reading(headers, SESSION_HEADER@) {
        None => Err(response(404, BodyView::Empty)),
        Some(None) => Err(response(500, BodyView::Empty)),
        Some(Some(id)) => if sessions.contains_key(id) {
            Ok(sessions[id])
        } else {
            Err(response(404, BodyView::Empty))
        },
    }
}

/// What a request to open a session needs done.
pub enum CreateStep<A> {
    /// Answer; there will be no session.
    Refuse(Reply),
    /// Connect to this address; the session will have this identifier.
    Connect { id: String, dest: A },
}

/// How a request to open a session ended.
pub struct Created {
    pub reply: Reply,
    /// The session is in the table, and is to be watched.
    pub entered: bool,
}

/// What a request did: its response, and what becomes of the session.
pub struct Verdict {
    pub reply: Reply,
    /// The session is over.
    pub shutdown: bool,
    /// The session was in use.
    pub heartbeat: bool,
}

/// What a request did, over what its response says.
#[verifier::ext_equal]
pub struct VerdictView {
    pub reply: ReplyView,
    pub shutdown: bool,
    pub heartbeat: bool,
}

impl View for Verdict {
    type V = VerdictView;

    open spec fn view(&self) -> VerdictView {
        VerdictView {
            reply: self.reply@,
            shutdown: self.shutdown,
            heartbeat: self.heartbeat,
        }
    }
}

/// The verdict on a transfer that broke: 500, and the session is over.
pub open spec fn broken_transfer() -> VerdictView {
    VerdictView { reply: response(500, BodyView::Empty), shutdown: true, heartbeat: false }
}

/// The server and a session after a verdict on a request for that session was carried out.
pub open spec fn concluded<A, S>(
    server: ServerView<A, S>,
    id: Seq<char>,
    live: Liveness,
    verdict: VerdictView,
) -> (ServerView<A, S>, Liveness) {
    let live = if verdict.heartbeat {
        Liveness { heartbeat: next_heartbeat(live.heartbeat), ..live }
    } else {
        live
    };
    if verdict.shutdown {
        server.ended(id, live)
    } else {
        (server, live)
    }
}

impl<A, S> View for ServerState<A, S> {
    type V = ServerView<A, S>;

    closed spec fn view(&self) -> ServerView<A, S> {
        ServerView {
            sessions: self.sessions@,
            dest: self.dest,
            max_sessions: self.max_sessions,
            session_timeout: self.session_timeout,
        }
    }
}

impl<A: Copy, S> ServerState<A, S> {
    /// A server without sessions; `opts` holds the most sessions and the timeout in seconds.
    pub fn new(dest: A, opts: (usize, u32)) -> (server: ServerState<A, S>)
        ensures
            server@ == (ServerView {
                sessions: Map::<Seq<char>, S>::empty(),
                dest,
                max_sessions: opts.0,
                session_timeout: opts.1,
            }),
            server@.within_limit(),
    {
        ServerState {
            sessions: StringHashMap::new(),
            dest,
            max_sessions: opts.0,
            session_timeout: opts.1,
        }
    }

    /// Gives the entry of the session called `req_id`.
    pub fn get_session_from_req(&self, req_id: &str) -> (entry: Option<&S>)
        ensures
            match entry {
                Some(entry) => self@.sessions.contains_key(req_id@) && *entry
                    == self@.sessions[req_id@],
                None => !self@.sessions.contains_key(req_id@),
            },
    {
        self.sessions.get(req_id)
    }

    /// Finds the session that a request names in its headers, or the response that refuses it.
    pub fn get_session(&self, headers: &HeaderMap<HeaderValue>) -> (found: Result<&S, Reply>)
        ensures
            match found {
                Ok(entry) => session_lookup(header_contents(*headers), self@.sessions) == Ok::<
                    S,
                    ReplyView,
                >(*entry),
                Err(reply) => session_lookup(header_contents(*headers), self@.sessions) == Err::<
                    S,
                    ReplyView,
                >(reply@),
            },
    {
        match read_header(headers, SESSION_HEADER) {
            HeaderRead::Missing => Err(make_response(404, Body::Empty)),
            HeaderRead::Unreadable => Err(make_response(500, Body::Empty)),
            HeaderRead::Text(req_id) => match self.get_session_from_req(req_id.as_str()) {
                Some(entry) => Ok(entry),
                None => Err(make_response(404, Body::Empty)),
            },
        }
    }

    /// Begins to open a session, whose identifier is made of these bytes.
    pub fn begin_create(&self, id_bytes: &Vec<u8>) -> (step: CreateStep<A>)
        ensures
            match step {
                CreateStep::Refuse(reply) => self@.is_full() && reply@ == response(
                    500,
                    BodyView::Empty,
                ),
                CreateStep::Connect { id, dest } => {
                    &&& !self@.is_full()
                    &&& id@ == id_text(id_bytes@)
                    &&& dest == self@.dest
                },
            },
    {
        if self.sessions.len() >= self.max_sessions {
            CreateStep::Refuse(make_response(500, Body::Empty))
        } else {
            CreateStep::Connect { id: encode_id(id_bytes), dest: self.dest }
        }
    }

    /// Begins to open a session with an identifier drawn at random.
    pub fn do_create(&self) -> (step: CreateStep<A>)
        ensures
            match step {
                CreateStep::Refuse(reply) => self@.is_full() && reply@ == response(
                    500,
                    BodyView::Empty,
                ),
                CreateStep::Connect { id, dest } => !self@.is_full() && is_session_id(id@)
                    && dest == self@.dest,
            },
    {
        let id_bytes = draw_id_bytes();
        proof {
            law_issued_ids_are_well_formed(id_bytes@);
        }
        self.begin_create(&id_bytes)
    }

    /// Ends the opening of a session: `entry` is there if the connection was made. The session is
    /// entered in the table if there is still room for it; other requests may have filled the
    /// table while the connection was made.
    pub fn finish_create(&mut self, id: String, entry: Option<S>) -> (created: Created)
        requires
            old(self)@.within_limit(),
        ensures
            final(self)@.within_limit(),
            match entry {
                Some(entry) if !old(self)@.is_full() => {
                    &&& created.entered
                    &&& created.reply@ == response(200, BodyView::Text(id@))
                    &&& final(self)@ == (ServerView {
                        sessions: old(self)@.sessions.insert(id@, entry),
                        ..old(self)@
                    })
                },
                _ => {
                    &&& !created.entered
                    &&& created.reply@ == response(500, BodyView::Empty)
                    &&& final(self)@ == old(self)@
                },
            },
    {
        match entry {
            Some(entry) => {
                if self.sessions.len() >= self.max_sessions {
                    return Created { reply: make_response(500, Body::Empty), entered: false };
                }
                let key = id.clone();
                self.sessions.insert(key, entry);
                Created { reply: make_response(200, Body::Text(id)), entered: true }
            },
            None => Created { reply: make_response(500, Body::Empty), entered: false },
        }
    }

    /// Ends a session and takes it out of the table. Every call after the first one has no effect.
    pub fn shutdown(&mut self, session: &mut Session)
        requires
            old(self)@.within_limit(),
        ensures
            final(self)@.within_limit(),
            final(session).id == old(session).id,
            (final(self)@, final(session).live) == old(self)@.ended(
                old(session).id@,
                old(session).live,
            ),
    {
        if !session.live.close() {
            return;
        }
        self.sessions.remove(session.id.as_str());
    }

    /// Looks at a session after a pause, and ends it if it has been idle for longer than the
    /// timeout of the server. Gives the seconds to the next look, or `None` when the watch is over.
    pub fn timeout_watchdog(&mut self, session: &mut Session, watchdog: &mut Watchdog) -> (pause:
        Option<u64>)
        requires
            old(self)@.within_limit(),
        ensures
            final(self)@.within_limit(),
            final(session).id == old(session).id,
            (final(self)@, final(session).live, *final(watchdog), pause) == old(self)@.watched(
                old(session).id@,
                old(session).live,
                *old(watchdog),
            ),
    {
        match watchdog.tick(self.session_timeout, &session.live) {
            WatchStep::Sleep(seconds) => Some(seconds),
            WatchStep::Expire => {
                self.shutdown(session);
                None
            },
            WatchStep::Stop => None,
        }
    }

    /// Carries out what a request decided of its session, and gives the response to send.
    pub fn conclude(&mut self, session: &mut Session, verdict: Verdict) -> (reply: Reply)
        requires
            old(self)@.within_limit(),
        ensures
            final(self)@.within_limit(),
            reply == verdict.reply,
            reply@ == verdict@.reply,
            final(session).id == old(session).id,
            (final(self)@, final(session).live) == concluded(
                old(self)@,
                old(session).id@,
                old(session).live,
                verdict@,
            ),
    {
        if verdict.heartbeat {
            session.live.beat();
        }
        if verdict.shutdown {
            self.shutdown(session);
        }
        verdict.reply
    }
}

/// What a `/send` request needs done.
pub enum SendStep {
    /// Write these bytes to the tunneled connection.
    Write(Vec<u8>),
    /// The request is over.
    Finish(Verdict),
}

/// What a `/send` request needs done, over the bytes and the response.
#[verifier::ext_equal]
pub enum SendStepView {
    Write(Seq<u8>),
    Finish(VerdictView),
}

impl View for SendStep {
    type V = SendStepView;

    open spec fn view(&self) -> SendStepView {
        match self {
            SendStep::Write(bytes) => SendStepView::Write(bytes@),
            SendStep::Finish(verdict) => SendStepView::Finish(verdict@),
        }
    }
}

/// A `/send` request on its way: the body is asked for more, each chunk is written, until the
/// body ends or something fails.
pub struct SendTransfer {
    /// Whether a byte has come.
    pub nonempty: bool,
}

impl SendTransfer {
    /// The transfer after the body was asked for more, and what it needs done.
    pub open spec fn polled(self, polled: PolledView) -> (SendTransfer, SendStepView) {
        match polled {
            PolledView::Chunk(bytes) => (
                SendTransfer { nonempty: self.nonempty || bytes.len() > 0 },
                SendStepView::Write(bytes),
            ),
            PolledView::Failed => (self, SendStepView::Finish(broken_transfer())),
            PolledView::End => (
                self,
                SendStepView::Finish(
                    VerdictView {
                        reply: response(200, BodyView::Empty),
                        shutdown: false,
                        heartbeat: self.nonempty,
                    },
                ),
            ),
        }
    }

    /// Begins with the request body unread.
    pub fn new() -> (transfer: SendTransfer)
        ensures
            transfer == (SendTransfer { nonempty: false }),
    {
        SendTransfer { nonempty: false }
    }

    /// Goes on with what came of asking the body for more.
    pub fn on_body(&mut self, polled: Polled) -> (step: SendStep)
        ensures
            (*final(self), step@) == old(self).polled(polled@),
    {
        match polled {
            Polled::Chunk(bytes) => {
                if bytes.len() > 0 {
                    self.nonempty = true;
                }
                SendStep::Write(bytes)
            },
            Polled::Failed => SendStep::Finish(
                Verdict {
                    reply: make_response(500, Body::Empty),
                    shutdown: true,
                    heartbeat: false,
                },
            ),
            Polled::End => SendStep::Finish(
                Verdict {
                    reply: make_response(200, Body::Empty),
                    shutdown: false,
                    heartbeat: self.nonempty,
                },
            ),
        }
    }

    /// Goes on after a write: where it succeeded, the body is asked for more, else the request is
    /// over.
    pub fn on_write(&self, written: bool) -> (over: Option<Verdict>)
        ensures
            match over {
                Some(verdict) => !written && verdict@ == broken_transfer(),
                None => written,
            },
    {
        if written {
            None
        } else {
            Some(
                Verdict {
                    reply: make_response(500, Body::Empty),
                    shutdown: true,
                    heartbeat: false,
                },
            )
        }
    }
}

/// Gives the read that a `/recv` request makes on the tunneled connection.
pub fn recv_plan() -> (plan: ReadPlan)
    ensures
        plan.limit == BODY_SIZE_LIMIT,
        plan.wait == LONG_POLL_TIMEOUT,
{
    ReadPlan { limit: BODY_SIZE_LIMIT, wait: LONG_POLL_TIMEOUT }
}

/// The verdict on a `/recv` request: the bytes that came go to the client, and count as use of
/// the session; no bytes at all mean that the connection is closed, and end the session.
pub open spec fn recv_verdict(outcome: ReadView) -> VerdictView {
    match outcome {
        ReadView::TimedOut => VerdictView {
            reply: response(200, BodyView::Empty),
            shutdown: false,
            heartbeat: false,
        },
        ReadView::Failed => broken_transfer(),
        ReadView::Read(bytes) => VerdictView {
            reply: response(200, BodyView::Bytes(bytes)),
            shutdown: bytes.len() == 0,
            heartbeat: bytes.len() > 0,
        },
    }
}

/// Decides a `/recv` request by what came of its read.
pub fn do_recv(outcome: ReadOutcome) -> (verdict: Verdict)
    ensures
        verdict@ == recv_verdict(outcome@),
{
    match outcome {
        ReadOutcome::TimedOut => Verdict {
            reply: make_response(200, Body::Empty),
            shutdown: false,
            heartbeat: false,
        },
        ReadOutcome::Failed => Verdict {
            reply: make_response(500, Body::Empty),
            shutdown: true,
            heartbeat: false,
        },
        ReadOutcome::Read(bytes) => {
            let closed = bytes.len() == 0;
            Verdict {
                reply: make_response(200, Body::Bytes(bytes)),
                shutdown: closed,
                heartbeat: !closed,
            }
        },
    }
}

/// Decides a `/close` request for a session that is there.
pub fn do_close() -> (verdict: Verdict)
    ensures
        verdict@ == (VerdictView {
            reply: response(200, BodyView::Empty),
            shutdown: true,
            heartbeat: false,
        }),
{
    Verdict { reply: make_response(200, Body::Empty), shutdown: true, heartbeat: false }
}

/// Gives the exit code of the program; `served` tells whether the server ended well.
pub fn exit_code(served: bool) -> (code: i32)
    ensures
        code == if served {
            0i32
        } else {
            -1i32
        },
{
    if served {
        0
    } else {
        -1
    }
}

/// A request that names a session finds what was entered for that session when it was created.
pub proof fn law_created_session_is_found<S>(
    headers: Map<Seq<char>, Seq<Seq<u8>>>,
    sessions: Map<Seq<char>, S>,
    id: Seq<char>,
    entry: S,
)
    requires
        header_reading(headers, SESSION_HEADER@) == Some(Some(id)),
    ensures
        session_lookup(headers, sessions.insert(id, entry)) == Ok::<S, ReplyView>(entry),
{
}

/// Once a session has ended, for whatever reason, every further request that names it is answered
/// with 404.
pub proof fn law_ended_session_is_not_found<A, S>(
    headers: Map<Seq<char>, Seq<Seq<u8>>>,
    server: ServerView<A, S>,
    id: Seq<char>,
    live: Liveness,
)
    requires
        header_reading(headers, SESSION_HEADER@) == Some(Some(id)),
        live.open,
    ensures
        session_lookup(headers, server.ended(id, live).0.sessions) == Err::<S, ReplyView>(
            response(404, BodyView::Empty),
        ),
{
}

/// Opening or ending one session leaves requests for all others as they were.
pub proof fn law_sessions_are_independent<A, S>(
    headers: Map<Seq<char>, Seq<Seq<u8>>>,
    server: ServerView<A, S>,
    id: Seq<char>,
    live: Liveness,
    entry: S,
)
    requires
        header_reading(headers, SESSION_HEADER@) != Some(Some(id)),
    ensures
        session_lookup(headers, server.ended(id, live).0.sessions) == session_lookup(
            headers,
            server.sessions,
        ),
        session_lookup(headers, server.sessions.insert(id, entry)) == session_lookup(
            headers,
            server.sessions,
        ),
{
}

/// Ending a session a second time changes nothing, even if the server has moved on since.
pub proof fn law_shutdown_happens_once<A, S>(
    first: ServerView<A, S>,
    later: ServerView<A, S>,
    id: Seq<char>,
    live: Liveness,
)
    ensures
        later.ended(id, first.ended(id, live).1) == (later, first.ended(id, live).1),
{
}

/// A session that stays idle is kept for as many looks as the timeout of the server says, and
/// ended at the next one.
pub proof fn law_idle_session_is_ended<A, S>(
    server: ServerView<A, S>,
    id: Seq<char>,
    live: Liveness,
    looks: Seq<u64>,
)
    requires
        live.open,
        looks.len() <= server.session_timeout,
        forall|i: int| 0 <= i < looks.len() ==> looks[i] == live.heartbeat,
    ensures
        ({
            let watchdog = fresh_watchdog(live.heartbeat).after(server.session_timeout, looks);
            let (after, after_live, _, pause) = server.watched(id, live, watchdog);
            if looks.len() < server.session_timeout {
                after == server && after_live == live && pause == Some(ONE_SECOND)
            } else {
                (after, after_live) == server.ended(id, live) && pause is None
            }
        }),
{
    law_idle_session_expires(server.session_timeout, live.heartbeat, looks);
}

/// A session is ended for inactivity only when its counter has not moved over one look more than
/// the timeout of the server says.
pub proof fn law_used_session_is_kept<A, S>(
    server: ServerView<A, S>,
    id: Seq<char>,
    live: Liveness,
    heartbeat: u64,
    looks: Seq<u64>,
)
    requires
        live.open,
        !(looks.len() >= server.session_timeout && forall|back: int|
            0 <= back <= server.session_timeout ==> seen(heartbeat, looks, back)
                == live.heartbeat),
    ensures
        ({
            let watchdog = fresh_watchdog(heartbeat).after(server.session_timeout, looks);
            let (after, after_live, _, pause) = server.watched(id, live, watchdog);
            after == server && after_live == live && pause == Some(ONE_SECOND)
        }),
{
    let watchdog = fresh_watchdog(heartbeat).after(server.session_timeout, looks);
    if watchdog.look(server.session_timeout, live.open, live.heartbeat).1 is Expire {
        law_active_session_is_kept(
            server.session_timeout,
            heartbeat,
            looks,
            live.open,
            live.heartbeat,
        );
    }
}

/// A request for a session whose verdict ends it leaves no trace of it in the table, and no other
/// verdict touches the table.
pub proof fn law_verdict_decides_session<A, S>(
    server: ServerView<A, S>,
    id: Seq<char>,
    live: Liveness,
    verdict: VerdictView,
)
    requires
        live.open,
    ensures
        concluded(server, id, live, verdict).1.open == !verdict.shutdown,
        concluded(server, id, live, verdict).0.sessions == if verdict.shutdown {
            server.sessions.remove(id)
        } else {
            server.sessions
        },
{
}

impl SendTransfer {
    /// The transfer after these chunks came and were written, and all the bytes that were written.
    pub open spec fn run(self, chunks: Seq<Seq<u8>>) -> (SendTransfer, Seq<u8>)
        decreases chunks.len(),
    {
        if chunks.len() == 0 {
            (self, Seq::empty())
        } else {
            let before = self.run(chunks.drop_last());
            let (after, step) = before.0.polled(PolledView::Chunk(chunks.last()));
            (
                after,
                match step {
                    SendStepView::Write(bytes) => before.1 + bytes,
                    SendStepView::Finish(_) => before.1,
                },
            )
        }
    }
}

/// A `/send` request writes the bytes of its body to the tunneled connection, all of them, in
/// order and once, however the body is cut into chunks. It is answered with 200, leaves the
/// session open, and counts as use of the session if the body has a byte.
pub proof fn law_send_forwards_body(chunks: Seq<Seq<u8>>)
    ensures
        ({
            let (transfer, written) = SendTransfer { nonempty: false }.run(chunks);
            &&& written == chunks.flatten()
            &&& transfer.polled(PolledView::End).1 == SendStepView::Finish(
                VerdictView {
                    reply: response(200, BodyView::Empty),
                    shutdown: false,
                    heartbeat: chunks.flatten().len() > 0,
                },
            )
        }),
    decreases chunks.len(),
{
    if chunks.len() > 0 {
        law_send_forwards_body(chunks.drop_last());
        chunks.drop_last().lemma_flatten_push(chunks.last());
        assert(chunks.drop_last().push(chunks.last()) =~= chunks);
    } else {
        assert(chunks.flatten() =~= Seq::<u8>::empty());
    }
}

/// A `/recv` request that finds no bytes does not count as use of the session; one that finds
/// some counts, and hands on exactly those.
pub proof fn law_recv_counts_bytes(outcome: ReadView)
    ensures
        recv_verdict(outcome).heartbeat <==> (outcome matches ReadView::Read(bytes) && bytes.len()
            > 0),
        outcome matches ReadView::Read(bytes) ==> recv_verdict(outcome).reply == response(
            200,
            BodyView::Bytes(bytes),
        ),
{
}

/// A `/send` request without a byte, and a `/recv` request for which nothing came, leave the
/// server and the session as they were: they do not put off the inactivity timeout.
pub proof fn law_empty_requests_are_no_activity<A, S>(
    server: ServerView<A, S>,
    id: Seq<char>,
    live: Liveness,
    chunks: Seq<Seq<u8>>,
)
    requires
        chunks.flatten().len() == 0,
    ensures
        ({
            let (transfer, _) = SendTransfer { nonempty: false }.run(chunks);
            &&& transfer.polled(PolledView::End).1 matches SendStepView::Finish(verdict)
            &&& concluded(server, id, live, verdict) == (server, live)
        }),
        concluded(server, id, live, recv_verdict(ReadView::TimedOut)) == (server, live),
{
    law_send_forwards_body(chunks);
}

} // verus!
