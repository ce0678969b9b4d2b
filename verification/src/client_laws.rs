//! What callers can rely on of the client. Each law speaks of calls by their arguments and their
//! results.

use crate::base_laws::digits;
use crate::client::{
    close_told, do_proxy, exit_code, session_result, validate_url, ApiRequest, ClientError,
    ClientOpStatus, ClientSession, ClientView, CloseStep, Download, DownloadStep, Ending,
    IdAnswer, Listener, ListenerView, Method, Sink, TaskResult, UploadStep, UrlError, WaitStep,
};
use crate::liveness::Watchdog;
use crate::options::Opts;
use crate::server::{router, Route};
use crate::server_laws::law_routes_are_literal;
use crate::transfer::{Polled, ReadOutcome};
use vstd::prelude::*;

verus! {

/// A URL is accepted exactly if something can follow `https://`, or with consent `http://`, to
/// make it. Without consent the complaint is about plaintext, with it about the scheme.
pub proof fn law_plaintext_needs_consent(
    base_url: &str,
    opts: Opts,
    checked: Result<(), UrlError>,
)
    requires
        call_ensures(validate_url, (base_url, opts), checked),
    ensures
        checked is Ok <==> (exists|rest: Seq<char>| base_url@ == #[trigger] ("https://"@ + rest))
            || opts.2 && (exists|rest: Seq<char>| base_url@ == #[trigger] ("http://"@ + rest)),
        checked matches Err(error) ==> (error is PlaintextRefused <==> !opts.2),
        checked matches Err(error) ==> (error is UnknownScheme <==> opts.2),
{
    lemma_prefix(base_url@, "https://"@);
    lemma_prefix(base_url@, "http://"@);
}

proof fn lemma_prefix(text: Seq<char>, prefix: Seq<char>)
    ensures
        crate::text::has_prefix(text, prefix) <==> exists|rest: Seq<char>|
            text == #[trigger] (prefix + rest),
{
    if crate::text::has_prefix(text, prefix) {
        let rest = text.skip(prefix.len() as int);
        assert(text =~= text.take(prefix.len() as int) + rest);
        assert(text == prefix + rest);
    } else if exists|rest: Seq<char>| text == #[trigger] (prefix + rest) {
        let rest = choose|rest: Seq<char>| text == #[trigger] (prefix + rest);
        assert(text.take(prefix.len() as int) =~= prefix);
    }
}

/// A refused URL is explained in these words.
pub proof fn law_refusals_are_explained(error: &UrlError, text: &'static str)
    requires
        call_ensures(UrlError::message, (error,), text),
    ensures
        error is PlaintextRefused ==> text@
            == "URL must start with \"https://\" unless --allow-plaintext is set"@,
        error is UnknownScheme ==> text@ == "URL must start with \"https://\" or \"https://\""@,
{
}

/// Whether a request is for the endpoint called `name` below a base URL.
pub open spec fn is_for(request: ApiRequest, base_url: Seq<char>, name: Seq<char>) -> bool {
    request.url@ == base_url + name
}

/// Whether a request names a session.
pub open spec fn carries(request: ApiRequest, id: Seq<char>) -> bool {
    request.session matches Some(own) && own@ == id
}

/// Whether a server below `base_url` sees a request as this target and method.
pub open spec fn seen_as(
    request: ApiRequest,
    base_url: Seq<char>,
    uri: Seq<char>,
    method: Seq<char>,
) -> bool {
    &&& request.url@.len() >= base_url.len()
    &&& uri == "/"@ + request.url@.skip(base_url.len() as int)
    &&& request.method is Get ==> method == "GET"@
    &&& request.method is Post ==> method == "POST"@
    &&& request.method is Delete ==> method == "DELETE"@
}

proof fn lemma_seen(
    request: ApiRequest,
    base_url: Seq<char>,
    name: Seq<char>,
    uri: Seq<char>,
    method: Seq<char>,
)
    requires
        is_for(request, base_url, name),
        seen_as(request, base_url, uri, method),
    ensures
        name == "create"@ ==> uri == "/create"@,
        name == "recv"@ ==> uri == "/recv"@,
        name == "send"@ ==> uri == "/send"@,
        name == "close"@ ==> uri == "/close"@,
{
    reveal_strlit("/");
    reveal_strlit("create");
    reveal_strlit("recv");
    reveal_strlit("send");
    reveal_strlit("close");
    reveal_strlit("/create");
    reveal_strlit("/recv");
    reveal_strlit("/send");
    reveal_strlit("/close");
    assert(request.url@.skip(base_url.len() as int) =~= name);
    if name == "create"@ {
        assert(uri =~= "/create"@);
    }
    if name == "recv"@ {
        assert(uri =~= "/recv"@);
    }
    if name == "send"@ {
        assert(uri =~= "/send"@);
    }
    if name == "close"@ {
        assert(uri =~= "/close"@);
    }
}

/// The request for a session names none, has no body, and the server takes it as a request to
/// open one.
pub proof fn law_session_is_asked_for(
    base_url: &String,
    request: ApiRequest,
    uri: &str,
    method: &str,
    route: Route,
)
    requires
        call_ensures(ClientSession::get_id, (base_url,), request),
        seen_as(request, base_url@, uri@, method@),
        call_ensures(router, (uri, method), route),
    ensures
        request.method is Get,
        is_for(request, base_url@, "create"@),
        request.session is None,
        request.body@.len() == 0,
        route is Create,
{
    lemma_seen(request, base_url@, "create"@, uri@, method@);
    law_routes_are_literal(uri, method, route);
}

/// The client takes a session exactly if the server answers 200 with thirty-two digits, and takes
/// those as its identifier. A request that fails is an error status, any other answer an error.
pub proof fn law_only_well_formed_answers_are_sessions(answer: IdAnswer, result: TaskResult)
    requires
        call_ensures(ClientSession::request_session, (answer,), result),
    ensures
        (result matches Ok(status) && status is SessionId) <==> (answer matches IdAnswer::Answered {
            status,
            text,
        } && status == 200 && text@.len() == 32 && forall|i: int|
            0 <= i < text@.len() ==> digits().contains(#[trigger] text@[i])),
        result matches Ok(ClientOpStatus::SessionId(id)) ==> (answer matches IdAnswer::Answered {
            status,
            text,
        } && id@ == text@),
        answer is Failed <==> result == Ok::<ClientOpStatus, ClientError>(ClientOpStatus::Error),
        answer is Aborted <==> result == Err::<ClientOpStatus, ClientError>(ClientError::JOIN),
        answer is Answered && result is Err ==> result == Err::<ClientOpStatus, ClientError>(
            ClientError::CLIENT(ClientOpStatus::Error),
        ),
        answer is Answered && result is Ok ==> result->Ok_0 is SessionId,
{
    match answer {
        IdAnswer::Answered { status, text } => {
            lemma_digits(text@);
        },
        _ => {},
    }
}

proof fn lemma_digits(text: Seq<char>)
    ensures
        crate::ident::is_session_id(text) <==> text.len() == 32 && forall|i: int|
            0 <= i < text.len() ==> digits().contains(#[trigger] text[i]),
{
    reveal_strlit("0123456789abcdef");
    assert forall|i: int|
        0 <= i < text.len() && crate::ident::is_hex_digit(text[i]) implies digits().contains(
        #[trigger] text[i],
    ) by {
        let c = text[i];
        let at = if '0' <= c <= '9' {
            c as int - '0' as int
        } else {
            c as int - 'a' as int + 10
        };
        assert(digits()[at] == c);
    }
    assert forall|i: int| 0 <= i < text.len() && digits().contains(#[trigger] text[i]) implies
        crate::ident::is_hex_digit(text[i]) by {
        let at = choose|at: int| 0 <= at < digits().len() && digits()[at] == text[i];
        assert(0 <= at < 16);
    }
}

/// A session is set up exactly if the server gave an identifier: open, unused, with that
/// identifier, the base URL and the timeout of the options. Any other outcome is passed on.
pub proof fn law_session_is_set_up_as_given(
    requested: TaskResult,
    base_url: String,
    opts: &Opts,
    session: Result<ClientSession, ClientError>,
)
    requires
        call_ensures(ClientSession::initialize_session, (requested, base_url, opts), session),
    ensures
        session is Ok <==> (requested matches Ok(status) && status is SessionId),
        session matches Ok(own) ==> {
            &&& requested == Ok::<ClientOpStatus, ClientError>(ClientOpStatus::SessionId(own.id))
            &&& own.base_url@ == base_url@
            &&& own.live.open
            &&& own.live.heartbeat == 0
            &&& own.timeout == opts.1
        },
        requested matches Err(error) ==> session == Err::<ClientSession, ClientError>(error),
        requested matches Ok(status) ==> (status is SessionId || session == Err::<
            ClientSession,
            ClientError,
        >(ClientError::CLIENT(status))),
{
}

/// Whether a step changed at most the use counter and the open flag of a session.
pub open spec fn same_session(before: ClientSession, after: ClientSession) -> bool {
    before.id@ == after.id@ && before.base_url@ == after.base_url@ && before.timeout
        == after.timeout
}

/// Whether a session was marked as in use, once, and nothing else happened to it.
pub open spec fn used_once(before: ClientSession, after: ClientSession) -> bool {
    &&& same_session(before, after)
    &&& after.live.open == before.live.open
    &&& after.live.heartbeat as int == (before.live.heartbeat + 1) % 0x1_0000_0000_0000_0000
}

/// Whether nothing happened to a session.
pub open spec fn untouched(before: ClientSession, after: ClientSession) -> bool {
    same_session(before, after) && after.live == before.live
}

/// Whether a task ends because another one has closed the session.
pub open spec fn ends_quietly(ending: Ending) -> bool {
    !ending.close && ending.result == Ok::<ClientOpStatus, ClientError>(ClientOpStatus::Done)
}

/// Whether a task ends well and closes the session.
pub open spec fn ends_session(ending: Ending) -> bool {
    ending.close && ending.result == Ok::<ClientOpStatus, ClientError>(ClientOpStatus::Done)
}

/// Whether a task ends with an error, and closes the session or not.
pub open spec fn ends_badly(ending: Ending, close: bool, error: ClientError) -> bool {
    ending.close == close && ending.result == Err::<ClientOpStatus, ClientError>(error)
}

/// Closing an open session tells the server, which takes it as a request to end that session;
/// closing a closed one does nothing. Either way the session is closed.
pub proof fn law_close_reaches_the_server(
    session: &mut ClientSession,
    step: CloseStep,
    uri: &str,
    method: &str,
    route: Route,
)
    requires
        call_ensures(ClientSession::close, (session,), step),
        call_ensures(router, (uri, method), route),
    ensures
        same_session(*old(session), *final(session)),
        !final(session).live.open,
        final(session).live.heartbeat == old(session).live.heartbeat,
        old(session).live.open <==> step is Request,
        step matches CloseStep::Request(request) ==> {
            &&& request.method is Delete
            &&& is_for(request, old(session).base_url@, "close"@)
            &&& carries(request, old(session).id@)
            &&& request.body@.len() == 0
            &&& seen_as(request, old(session).base_url@, uri@, method@) ==> route is Close
        },
        step matches CloseStep::Finish(result) ==> result == Ok::<ClientOpStatus, ClientError>(
            ClientOpStatus::OK,
        ),
{
    match step {
        CloseStep::Request(request) => {
            if seen_as(request, old(session).base_url@, uri@, method@) {
                lemma_seen(request, old(session).base_url@, "close"@, uri@, method@);
                law_routes_are_literal(uri, method, route);
            }
        },
        _ => {},
    }
}

/// The hangup signal closes the session as closing does; where it cannot be waited for, the
/// session is left alone.
pub proof fn law_hangup_closes_session(
    session: &mut ClientSession,
    listening: bool,
    step: CloseStep,
)
    requires
        call_ensures(ClientSession::signal_handler, (session, listening), step),
    ensures
        same_session(*old(session), *final(session)),
        final(session).live.heartbeat == old(session).live.heartbeat,
        final(session).live.open == (old(session).live.open && !listening),
        step is Request <==> listening && old(session).live.open,
        step matches CloseStep::Request(request) ==> {
            &&& request.method is Delete
            &&& is_for(request, old(session).base_url@, "close"@)
            &&& carries(request, old(session).id@)
            &&& request.body@.len() == 0
        },
        step matches CloseStep::Finish(result) ==> result == (if listening {
            Ok::<ClientOpStatus, ClientError>(ClientOpStatus::OK)
        } else {
            Err::<ClientOpStatus, ClientError>(ClientError::CLIENT(ClientOpStatus::Error))
        }),
{
}

/// The watch over a client session begins with nothing counted, and with a first look a second
/// later if the session is open.
pub proof fn law_client_watch_begins(session: &ClientSession, started: (Watchdog, WaitStep))
    requires
        call_ensures(ClientSession::start_watch, (session,), started),
    ensures
        started.0.idle_count == 0,
        started.0.baseline == session.live.heartbeat,
        session.live.open ==> started.1 == WaitStep::Sleep(1),
        !session.live.open ==> (started.1 matches WaitStep::Stop(ending) && ends_quietly(ending)),
{
}

/// A look at a client session closes it exactly if its counter has stood still for as many looks
/// before as the timeout of the session says. Else the look is counted, or the count starts again
/// where the counter has moved; the next look is due a second later as long as the session is
/// open.
pub proof fn law_look_goes_by_session_timeout(
    session: &ClientSession,
    watchdog: &mut Watchdog,
    step: WaitStep,
)
    requires
        call_ensures(ClientSession::timeout_waiter, (session, watchdog), step),
    ensures
        ({
            let moved = old(watchdog).baseline != session.live.heartbeat;
            let expired = !moved && old(watchdog).idle_count >= session.timeout;
            &&& final(watchdog).baseline == session.live.heartbeat
            &&& moved ==> final(watchdog).idle_count == 0
            &&& !moved && !expired ==> final(watchdog).idle_count == old(watchdog).idle_count + 1
            &&& expired ==> final(watchdog).idle_count == old(watchdog).idle_count
            &&& expired ==> (step matches WaitStep::Stop(ending) && ends_session(ending))
            &&& !expired && session.live.open ==> step == WaitStep::Sleep(1)
            &&& !expired && !session.live.open ==> (step matches WaitStep::Stop(ending)
                && ends_quietly(ending))
        }),
{
}

/// The watchdog of an idle client session and what it wants after a number of looks, each one
/// made with the watchdog that the one before left.
pub open spec fn idle_client_looks(session: ClientView, looks: nat) -> (Watchdog, WaitStep)
    decreases looks,
{
    if looks == 0 {
        (
            Watchdog { idle_count: 0, baseline: session.live.heartbeat },
            WaitStep::Sleep(1),
        )
    } else {
        session.watched(idle_client_looks(session, (looks - 1) as nat).0)
    }
}

/// An open client session through which nothing passes is kept for as many looks as its timeout
/// says, and is closed by the next one.
pub proof fn law_idle_client_session_is_closed_in_time(session: ClientView, looks: nat)
    requires
        session.live.open,
        looks <= session.timeout + 1,
    ensures
        ({
            let (watchdog, step) = idle_client_looks(session, looks);
            &&& looks <= session.timeout ==> watchdog.idle_count == looks && watchdog.baseline
                == session.live.heartbeat && step == WaitStep::Sleep(1)
            &&& looks == session.timeout + 1 ==> (step matches WaitStep::Stop(ending)
                && ends_session(ending))
        }),
    decreases looks,
{
    if looks > 0 {
        law_idle_client_session_is_closed_in_time(session, (looks - 1) as nat);
    }
}

/// Whether an upload goes on with a read of at most one mebibyte and one second, or ends quietly,
/// as its session is open or not.
pub open spec fn reads_on(open: bool, step: UploadStep) -> bool {
    &&& open ==> (step matches UploadStep::Read(plan) && plan.limit == 0x10_0000 && plan.wait == 1)
    &&& !open ==> (step matches UploadStep::Stop(ending) && ends_quietly(ending))
}

/// An upload reads on exactly as long as its session is open.
pub proof fn law_upload_reads_while_open(session: &ClientSession, step: UploadStep)
    requires
        call_ensures(ClientSession::upload_next, (session,), step),
    ensures
        reads_on(session.live.open, step),
{
}

/// Every read that brings a byte, at whatever point of the session, becomes one request with
/// exactly those bytes, which names the session and which the server takes as bytes to write to
/// the tunneled connection; it counts as one use. A read that brings nothing in time is followed
/// by another one; the end of the local connection ends the session, and its failure the upload.
pub proof fn law_every_read_is_sent(
    session: &mut ClientSession,
    outcome: ReadOutcome,
    step: UploadStep,
    uri: &str,
    method: &str,
    route: Route,
)
    requires
        call_ensures(ClientSession::copy_sockreader_to_send, (session, outcome), step),
        call_ensures(router, (uri, method), route),
    ensures
        outcome matches ReadOutcome::Read(bytes) ==> (bytes@.len() > 0 ==> {
            &&& step matches UploadStep::Post(request)
            &&& request.method is Post
            &&& is_for(request, old(session).base_url@, "send"@)
            &&& carries(request, old(session).id@)
            &&& request.body@ == bytes@
            &&& seen_as(request, old(session).base_url@, uri@, method@) ==> route is Send
            &&& used_once(*old(session), *final(session))
        }),
        outcome matches ReadOutcome::Read(bytes) ==> (bytes@.len() == 0 ==> {
            &&& step matches UploadStep::Stop(ending)
            &&& ends_session(ending)
            &&& untouched(*old(session), *final(session))
        }),
        outcome is TimedOut ==> reads_on(old(session).live.open, step) && untouched(
            *old(session),
            *final(session),
        ),
        outcome is Failed ==> {
            &&& step matches UploadStep::Stop(ending)
            &&& ends_badly(ending, false, ClientError::CLIENT(ClientOpStatus::Error))
            &&& untouched(*old(session), *final(session))
        },
{
    match step {
        UploadStep::Post(request) => {
            if seen_as(request, old(session).base_url@, uri@, method@) {
                lemma_seen(request, old(session).base_url@, "send"@, uri@, method@);
                law_routes_are_literal(uri, method, route);
            }
        },
        _ => {},
    }
}

/// Whether a task ends as the server's answer says: 404 is a clean end of the session, any other
/// answer but 200, or none, an error that ends it.
pub open spec fn ends_as_answered(status: Option<u16>, ending: Ending) -> bool {
    &&& status == Some(404u16) ==> ends_session(ending)
    &&& status matches Some(code) ==> (code != 404 ==> ends_badly(
        ending,
        true,
        ClientError::CLIENT(ClientOpStatus::Error),
    ))
    &&& status is None ==> ends_badly(ending, true, ClientError::REQWEST)
}

/// An upload goes on after an answer exactly if that is 200, and else ends as the answer says.
pub proof fn law_answers_decide_upload(
    session: &ClientSession,
    status: Option<u16>,
    step: UploadStep,
)
    requires
        call_ensures(ClientSession::upload_answered, (session, status), step),
    ensures
        status == Some(200u16) ==> reads_on(session.live.open, step),
        status != Some(200u16) ==> (step matches UploadStep::Stop(ending) && ends_as_answered(
            status,
            ending,
        )),
{
}

/// Whether a download goes on with a request for more bytes of the session, or ends quietly, as
/// the session is open or not.
pub open spec fn polls_on(session: ClientSession, open: bool, step: DownloadStep) -> bool {
    &&& open ==> {
        &&& step matches DownloadStep::Get(request)
        &&& request.method is Get
        &&& is_for(request, session.base_url@, "recv"@)
        &&& carries(request, session.id@)
        &&& request.body@.len() == 0
    }
    &&& !open ==> (step matches DownloadStep::Stop(ending) && ends_quietly(ending))
}

/// Each round of the download of an open session, whatever has passed through it before, is a
/// request that the server takes as one for bytes of the tunneled connection; a closed session
/// has no more rounds.
pub proof fn law_every_round_asks_for_bytes(
    session: &ClientSession,
    step: DownloadStep,
    uri: &str,
    method: &str,
    route: Route,
)
    requires
        call_ensures(ClientSession::download_next, (session,), step),
        call_ensures(router, (uri, method), route),
    ensures
        polls_on(*session, session.live.open, step),
        step matches DownloadStep::Get(request) ==> (seen_as(
            request,
            session.base_url@,
            uri@,
            method@,
        ) ==> route is Recv),
{
    match step {
        DownloadStep::Get(request) => {
            if seen_as(request, session.base_url@, uri@, method@) {
                lemma_seen(request, session.base_url@, "recv"@, uri@, method@);
                law_routes_are_literal(uri, method, route);
            }
        },
        _ => {},
    }
}

/// A download begins with nothing passed on.
pub proof fn law_download_begins_empty(sink: Sink, download: Download)
    requires
        call_ensures(Download::new, (sink,), download),
    ensures
        download.sink == sink,
        !download.did_write,
{
}

/// A download reads the response exactly if that is a 200, with nothing passed on of it yet, and
/// else ends as the answer says.
pub proof fn law_answers_decide_download(
    download: &mut Download,
    status: Option<u16>,
    step: DownloadStep,
)
    requires
        call_ensures(Download::on_answer, (download, status), step),
    ensures
        final(download).sink == old(download).sink,
        status == Some(200u16) ==> step is Poll && !final(download).did_write,
        status != Some(200u16) ==> final(download).did_write == old(download).did_write,
        status != Some(200u16) ==> (step matches DownloadStep::Stop(ending) && ends_as_answered(
            status,
            ending,
        )),
{
}

/// Every chunk of a response is written as it came. At the end of the response the download polls
/// on; if a byte was passed on, that counts as one use, and standard output is flushed before it.
/// A response that fails ends the download.
pub proof fn law_every_chunk_is_written(
    download: &mut Download,
    session: &mut ClientSession,
    polled: Polled,
    step: DownloadStep,
)
    requires
        call_ensures(Download::copy_reads_to_sockwriter, (download, session, polled), step),
    ensures
        final(download).sink == old(download).sink,
        !(polled is Chunk) ==> final(download).did_write == old(download).did_write,
        polled matches Polled::Chunk(bytes) ==> {
            &&& step matches DownloadStep::Write(own)
            &&& own@ == bytes@
            &&& final(download).did_write == (old(download).did_write || bytes@.len() > 0)
            &&& untouched(*old(session), *final(session))
        },
        polled is Failed ==> {
            &&& step matches DownloadStep::Stop(ending)
            &&& ends_badly(ending, false, ClientError::REQWEST)
            &&& untouched(*old(session), *final(session))
        },
        polled is End && !old(download).did_write ==> polls_on(
            *old(session),
            old(session).live.open,
            step,
        ) && untouched(*old(session), *final(session)),
        polled is End && old(download).did_write && old(download).sink is Stdout ==> step is Flush
            && untouched(*old(session), *final(session)),
        polled is End && old(download).did_write && old(download).sink is Stream ==> polls_on(
            *old(session),
            old(session).live.open,
            step,
        ) && used_once(*old(session), *final(session)),
{
}

/// A download asks for more of the response exactly as long as its writes succeed.
pub proof fn law_failed_write_ends_download(
    download: &Download,
    written: bool,
    step: DownloadStep,
)
    requires
        call_ensures(Download::on_write, (download, written), step),
    ensures
        written ==> step is Poll,
        !written ==> (step matches DownloadStep::Stop(ending) && ends_badly(
            ending,
            false,
            ClientError::IO,
        )),
{
}

/// A flush that succeeds counts as one use and the download polls on; one that fails ends the
/// download.
pub proof fn law_flush_completes_a_round(
    download: &Download,
    session: &mut ClientSession,
    flushed: bool,
    step: DownloadStep,
)
    requires
        call_ensures(Download::on_flush, (download, session, flushed), step),
    ensures
        flushed ==> polls_on(*old(session), old(session).live.open, step) && used_once(
            *old(session),
            *final(session),
        ),
        !flushed ==> {
            &&& step matches DownloadStep::Stop(ending)
            &&& ends_badly(ending, false, ClientError::IO)
            &&& untouched(*old(session), *final(session))
        },
{
}

/// Closing is done once the server has answered, whatever it said; a session or a proxy run that
/// came to its end is done as well, and everything else is an error.
pub proof fn law_results_are_passed_on(
    answered: bool,
    told: TaskResult,
    waited: TaskResult,
    over: TaskResult,
    joined: bool,
    proxied: ClientOpStatus,
)
    requires
        call_ensures(close_told, (answered,), told),
        call_ensures(session_result, (waited,), over),
        call_ensures(do_proxy, (joined,), proxied),
    ensures
        answered ==> told == Ok::<ClientOpStatus, ClientError>(ClientOpStatus::Done),
        !answered ==> told == Err::<ClientOpStatus, ClientError>(ClientError::REQWEST),
        waited is Ok ==> over == Ok::<ClientOpStatus, ClientError>(ClientOpStatus::Done),
        waited is Err ==> over == waited,
        joined <==> proxied is Done,
        !joined <==> proxied is Error,
{
}

/// The program ends with 0 exactly if the client is done, and else with -1.
pub proof fn law_client_exit_code(outcome: Option<ClientOpStatus>, code: i32)
    requires
        call_ensures(exit_code, (outcome,), code),
    ensures
        code == 0 <==> (outcome matches Some(status) && status is Done),
        code == 0 || code == -1,
{
}

/// A listening client begins without sessions, takes in another one exactly as long as it has
/// fewer than it is allowed, and has one less when one ends.
pub proof fn law_listener_counts_sessions(
    max_sessions: usize,
    fresh: Listener,
    listener: &mut Listener,
    accepted: bool,
    left: &mut Listener,
)
    requires
        old(listener)@.within_limit(),
        old(left)@.within_limit(),
        call_ensures(Listener::new, (max_sessions,), fresh),
        call_ensures(Listener::accept, (listener,), accepted),
        call_ensures(Listener::release, (left,), ()),
    ensures
        fresh@.active == 0 && fresh@.max_sessions == max_sessions,
        fresh@.within_limit(),
        accepted <==> old(listener)@.active < old(listener)@.max_sessions,
        final(listener)@.max_sessions == old(listener)@.max_sessions,
        final(listener)@.active == old(listener)@.active + (if accepted {
            1int
        } else {
            0
        }),
        final(left)@.max_sessions == old(left)@.max_sessions,
        old(left)@.active > 0 ==> final(left)@.active == old(left)@.active - 1,
        old(left)@.active == 0 ==> final(left)@.active == 0,
{
}

/// Within its limit means, of a listening client, no more sessions than allowed.
pub proof fn law_listener_limit_is_the_maximum(listener: ListenerView)
    ensures
        listener.within_limit() <==> listener.active <= listener.max_sessions,
{
}

} // verus!
