//! What holds of a client and a server together.

use crate::client::{
    self, answer_ending, closed_elsewhere, create_request, ApiRequestView, ClientOpStatus,
    ClientView, CloseStepView, Download, DownloadStepView, Ending, Method, UploadStepView,
};
use crate::constants::{BODY_SIZE_LIMIT, ID_SIZE_BINARY};
use crate::headers::{first_value, header_key, header_reading, is_visible, value_text};
use crate::ident::{id_text, is_hex_digit, is_session_id, law_issued_ids_are_well_formed};
use crate::liveness::Liveness;
use crate::reply::{response, BodyView, ReplyView};
use crate::server::{
    self, law_send_forwards_body, recv_verdict, route_of, session_lookup, Route, SendTransfer,
    ServerView,
};
use crate::transfer::{PolledView, ReadView};
use vstd::prelude::*;
use vstd::utf8::{
    decode_utf8, encode_utf8, encode_utf8_decode_utf8, is_ascii_chars, is_ascii_chars_encode_utf8,
};

verus! {

/// The name of a method on the wire.
pub open spec fn method_name(method: Method) -> Seq<char> {
    match method {
        Method::Get => "GET"@,
        Method::Post => "POST"@,
        Method::Delete => "DELETE"@,
    }
}

/// The target that a server mounted at `base_url` sees of a request: what follows the base,
/// behind a slash.
pub open spec fn target(request: ApiRequestView, base_url: Seq<char>) -> Seq<char> {
    "/"@ + request.url.skip(base_url.len() as int)
}

/// The server takes each request of a client for what the client means by it.
pub proof fn law_requests_reach_their_handler(session: ClientView, body: Seq<u8>)
    ensures
        ({
            let base = session.base_url;
            let create = create_request(base);
            let send = session.request(Method::Post, "send"@, body);
            let recv = session.request(Method::Get, "recv"@, Seq::empty());
            let close = session.request(Method::Delete, "close"@, Seq::empty());
            &&& route_of(target(create, base), method_name(create.method)) is Create
            &&& route_of(target(send, base), method_name(send.method)) is Send
            &&& route_of(target(recv, base), method_name(recv.method)) is Recv
            &&& route_of(target(close, base), method_name(close.method)) is Close
        }),
{
    reveal_strlit("/");
    reveal_strlit("create");
    reveal_strlit("send");
    reveal_strlit("recv");
    reveal_strlit("close");
    reveal_strlit("/create");
    reveal_strlit("/send");
    reveal_strlit("/recv");
    reveal_strlit("/close");
    reveal_strlit("GET");
    reveal_strlit("POST");
    reveal_strlit("DELETE");
    let base = session.base_url;
    let create = create_request(base);
    let send = session.request(Method::Post, "send"@, body);
    let recv = session.request(Method::Get, "recv"@, Seq::empty());
    let close = session.request(Method::Delete, "close"@, Seq::empty());
    assert(target(create, base) =~= "/create"@);
    assert(target(send, base) =~= "/send"@);
    assert(target(recv, base) =~= "/recv"@);
    assert(target(close, base) =~= "/close"@);
    assert("/send"@.len() != "/create"@.len());
    assert("/recv"@[1] != "/send"@[1]);
    assert("/close"@.len() != "/create"@.len());
}

/// Once a session is closed, its tasks stop at their next round, and closing it again makes no
/// second request.
pub proof fn law_closed_session_stops(session: ClientView)
    ensures
        ({
            let closed = session.closing().0;
            &&& closed.upload_round() == UploadStepView::Stop(closed_elsewhere())
            &&& closed.download_round() == DownloadStepView::Stop(closed_elsewhere())
            &&& closed.closing() == (
                closed,
                CloseStepView::Finish(Ok(ClientOpStatus::OK)),
            )
        }),
{
}

/// What the tasks of a client session do to it, in whatever order they come to it.
pub enum SessionEvent {
    /// A task closes the session, or the hangup signal does.
    Close,
    /// The upload goes on after a read.
    Read(ReadView),
    /// The download goes on after the body of a response was asked for more.
    Polled(Download, PolledView),
    /// The download goes on after a flush.
    Flushed(Download, bool),
}

/// The session after one event.
pub open spec fn after_event(session: ClientView, event: SessionEvent) -> ClientView {
    match event {
        SessionEvent::Close => session.closing().0,
        SessionEvent::Read(outcome) => session.upload_read(outcome).0,
        SessionEvent::Polled(download, polled) => download.polled(session, polled).1,
        SessionEvent::Flushed(download, flushed) => download.flushed(session, flushed).0,
    }
}

/// The session after a series of events.
pub open spec fn after_events(session: ClientView, events: Seq<SessionEvent>) -> ClientView
    decreases events.len(),
{
    if events.len() == 0 {
        session
    } else {
        after_event(after_events(session, events.drop_last()), events.last())
    }
}

/// How many requests to end the session a series of events makes.
pub open spec fn close_requests(session: ClientView, events: Seq<SessionEvent>) -> nat
    decreases events.len(),
{
    if events.len() == 0 {
        0
    } else {
        let before = after_events(session, events.drop_last());
        let told = events.last() is Close && before.closing().1 is Request;
        close_requests(session, events.drop_last()) + if told {
            1nat
        } else {
            0
        }
    }
}

/// However its tasks interleave, an open session is closed by the first of them that closes it
/// and never opens again, and the server is told of that once and not twice. The session stays
/// the one that the server gave.
pub proof fn law_server_is_told_once(session: ClientView, events: Seq<SessionEvent>)
    requires
        session.live.open,
    ensures
        ({
            let closed = exists|i: int| 0 <= i < events.len() && events[i] is Close;
            let after = after_events(session, events);
            &&& after.live.open == !closed
            &&& close_requests(session, events) == if closed {
                1nat
            } else {
                0
            }
            &&& after.id == session.id
            &&& after.base_url == session.base_url
            &&& after.timeout == session.timeout
        }),
    decreases events.len(),
{
    if events.len() > 0 {
        let earlier = events.drop_last();
        law_server_is_told_once(session, earlier);
        if exists|i: int| 0 <= i < earlier.len() && earlier[i] is Close {
            let i = choose|i: int| 0 <= i < earlier.len() && earlier[i] is Close;
            assert(events[i] is Close);
        } else {
            assert forall|i: int| 0 <= i < events.len() && events[i] is Close implies i
                == events.len() - 1 by {
                if i < events.len() - 1 {
                    assert(earlier[i] is Close);
                }
            }
            if events.last() is Close {
                assert(events[events.len() - 1] is Close);
            }
        }
    }
}

/// The bytes that these reads brought.
pub open spec fn bytes_read(outcomes: Seq<ReadView>) -> Seq<u8>
    decreases outcomes.len(),
{
    if outcomes.len() == 0 {
        Seq::empty()
    } else {
        (match outcomes.first() {
            ReadView::Read(bytes) => bytes,
            _ => Seq::empty(),
        }) + bytes_read(outcomes.drop_first())
    }
}

/// The bodies of the requests that a session makes while its local reads go like this and the
/// server answers each request with 200.
pub open spec fn posted(session: ClientView, outcomes: Seq<ReadView>) -> Seq<Seq<u8>>
    decreases outcomes.len(),
{
    if outcomes.len() == 0 {
        Seq::empty()
    } else {
        let (after, step) = session.upload_read(outcomes.first());
        let rest = posted(after, outcomes.drop_first());
        match step {
            UploadStepView::Read(_) => rest,
            UploadStepView::Post(request) => match after.upload_answer(Some(200)) {
                UploadStepView::Read(_) => seq![request.body] + rest,
                _ => seq![request.body],
            },
            UploadStepView::Stop(_) => Seq::empty(),
        }
    }
}

/// All that the server writes to the tunneled connection for requests whose bodies come in these
/// chunks.
pub open spec fn delivered(bodies: Seq<Seq<Seq<u8>>>) -> Seq<u8>
    decreases bodies.len(),
{
    if bodies.len() == 0 {
        Seq::empty()
    } else {
        SendTransfer { nonempty: false }.run(bodies.first()).1 + delivered(bodies.drop_first())
    }
}

/// Whether `bodies`, each cut into chunks, are `whole`, in the same order.
pub open spec fn cut_from(bodies: Seq<Seq<Seq<u8>>>, whole: Seq<Seq<u8>>) -> bool {
    &&& bodies.len() == whole.len()
    &&& forall|i: int| 0 <= i < bodies.len() ==> (#[trigger] bodies[i]).flatten() == whole[i]
}

/// Whether a connection goes on after a read: bytes came, or nothing came in time.
pub open spec fn goes_on(outcome: ReadView) -> bool {
    match outcome {
        ReadView::TimedOut => true,
        ReadView::Failed => false,
        ReadView::Read(bytes) => bytes.len() > 0,
    }
}

/// Whether these are the reads of one connection: it goes on after each of them but the last,
/// which may also find it closed, or fail.
pub open spec fn one_connection(outcomes: Seq<ReadView>) -> bool {
    forall|i: int| 0 <= i < outcomes.len() - 1 ==> goes_on(#[trigger] outcomes[i])
}

proof fn lemma_rest_of_connection(outcomes: Seq<ReadView>)
    requires
        one_connection(outcomes),
        outcomes.len() > 0,
    ensures
        one_connection(outcomes.drop_first()),
        outcomes.len() > 1 ==> goes_on(outcomes.first()),
{
    let rest = outcomes.drop_first();
    assert forall|i: int| 0 <= i < rest.len() - 1 implies goes_on(#[trigger] rest[i]) by {
        assert(goes_on(outcomes[i + 1]));
    }
    if outcomes.len() > 1 {
        assert(goes_on(outcomes[0]));
    }
}

/// The requests of an open session carry the bytes that were read locally.
proof fn lemma_reads_are_posted(session: ClientView, outcomes: Seq<ReadView>)
    requires
        session.live.open,
        one_connection(outcomes),
    ensures
        posted(session, outcomes).flatten() == bytes_read(outcomes),
    decreases outcomes.len(),
{
    let bodies = posted(session, outcomes);
    if outcomes.len() > 0 {
        lemma_rest_of_connection(outcomes);
        let rest = outcomes.drop_first();
        let (after, step) = session.upload_read(outcomes.first());
        lemma_reads_are_posted(after, rest);
        if step is Post {
            assert(bodies.drop_first() =~= posted(after, rest));
        } else {
            assert(bytes_read(outcomes) =~= bytes_read(rest));
            if step is Stop {
                assert(bodies.flatten() =~= bytes_read(rest));
            }
        }
    } else {
        assert(bodies.flatten() =~= bytes_read(outcomes));
    }
}

proof fn lemma_delivered(bodies: Seq<Seq<Seq<u8>>>, whole: Seq<Seq<u8>>)
    requires
        cut_from(bodies, whole),
    ensures
        delivered(bodies) == whole.flatten(),
    decreases bodies.len(),
{
    if bodies.len() > 0 {
        assert(bodies[0].flatten() == whole[0]);
        assert forall|i: int| 0 <= i < bodies.drop_first().len() implies (
        #[trigger] bodies.drop_first()[i]).flatten() == whole.drop_first()[i] by {
            assert(bodies[i + 1].flatten() == whole[i + 1]);
        }
        lemma_delivered(bodies.drop_first(), whole.drop_first());
        law_send_forwards_body(bodies.first());
    } else {
        assert(delivered(bodies) =~= whole.flatten());
    }
}

/// The stream from the client to the destination is kept: the bytes that the server writes to the
/// tunneled connection are those that the client read locally, all of them, in order and once,
/// however the requests were cut into chunks on the way. The run may end with the close or a
/// failure of the local connection.
pub proof fn law_upstream_is_kept(
    session: ClientView,
    outcomes: Seq<ReadView>,
    bodies: Seq<Seq<Seq<u8>>>,
)
    requires
        session.live.open,
        one_connection(outcomes),
        cut_from(bodies, posted(session, outcomes)),
    ensures
        delivered(bodies) == bytes_read(outcomes),
{
    lemma_reads_are_posted(session, outcomes);
    lemma_delivered(bodies, posted(session, outcomes));
}

/// The bytes of a response body on the wire.
pub open spec fn body_bytes(body: BodyView) -> Seq<u8> {
    match body {
        BodyView::Empty => Seq::empty(),
        BodyView::Bytes(bytes) => bytes,
        BodyView::Text(text) => encode_utf8(text),
    }
}

/// The responses to `/recv` requests whose reads go like this.
pub open spec fn responses(outcomes: Seq<ReadView>) -> Seq<ReplyView> {
    outcomes.map_values(|outcome: ReadView| recv_verdict(outcome).reply)
}

/// The bodies of these responses on the wire.
pub open spec fn bodies_of(replies: Seq<ReplyView>) -> Seq<Seq<u8>> {
    replies.map_values(|reply: ReplyView| body_bytes(reply.body))
}

/// The download after these chunks of a response came and were written, its session, and all the
/// bytes that were written.
pub open spec fn copied(download: Download, session: ClientView, chunks: Seq<Seq<u8>>) -> (
    Download,
    ClientView,
    Seq<u8>,
)
    decreases chunks.len(),
{
    if chunks.len() == 0 {
        (download, session, Seq::empty())
    } else {
        let before = copied(download, session, chunks.drop_last());
        let (after, session, step) = before.0.polled(before.1, PolledView::Chunk(chunks.last()));
        (
            after,
            session,
            match step {
                DownloadStepView::Write(bytes) => before.2 + bytes,
                _ => before.2,
            },
        )
    }
}

/// All that the client writes to the local connection for these responses, whose bodies come in
/// these chunks.
pub open spec fn received(
    download: Download,
    session: ClientView,
    replies: Seq<ReplyView>,
    bodies: Seq<Seq<Seq<u8>>>,
) -> Seq<u8>
    decreases bodies.len(),
{
    if bodies.len() == 0 {
        Seq::empty()
    } else {
        let (polling, step) = download.answer(Some(replies.first().status));
        if step is Poll {
            let (read, session, written) = copied(polling, session, bodies.first());
            let (ended, session, step) = read.polled(session, PolledView::End);
            let (session, step) = if step is Flush {
                ended.flushed(session, true)
            } else {
                (session, step)
            };
            match step {
                DownloadStepView::Get(_) => written + received(
                    ended,
                    session,
                    replies.drop_first(),
                    bodies.drop_first(),
                ),
                _ => written,
            }
        } else {
            Seq::empty()
        }
    }
}

proof fn lemma_copied(download: Download, session: ClientView, chunks: Seq<Seq<u8>>)
    ensures
        copied(download, session, chunks) == (
            Download {
                did_write: download.did_write || chunks.flatten().len() > 0,
                sink: download.sink,
            },
            session,
            chunks.flatten(),
        ),
    decreases chunks.len(),
{
    if chunks.len() > 0 {
        lemma_copied(download, session, chunks.drop_last());
        chunks.drop_last().lemma_flatten_push(chunks.last());
        assert(chunks.drop_last().push(chunks.last()) =~= chunks);
    } else {
        assert(chunks.flatten() =~= Seq::<u8>::empty());
    }
}

/// A response is passed on to the local connection, all of it, in order and once, however it is
/// cut into chunks. It counts as use of the session if it has a byte, after standard output was
/// flushed.
pub proof fn law_response_is_passed_on(
    download: Download,
    session: ClientView,
    chunks: Seq<Seq<u8>>,
)
    ensures
        ({
            let (polling, _) = download.answer(Some(200));
            let (read, same, written) = copied(polling, session, chunks);
            let (_, after, step) = read.polled(same, PolledView::End);
            &&& written == chunks.flatten()
            &&& same == session
            &&& chunks.flatten().len() == 0 ==> after == session && step
                == session.download_round()
            &&& chunks.flatten().len() > 0 && download.sink is Stream ==> after
                == session.beaten() && step == session.download_round()
            &&& chunks.flatten().len() > 0 && download.sink is Stdout ==> after == session && step
                is Flush
        }),
{
    let (polling, _) = download.answer(Some(200));
    lemma_copied(polling, session, chunks);
}

/// The stream from the destination to the client is kept: the bytes that the client writes to the
/// local connection are those that the server read from the tunneled connection, all of them, in
/// order and once, however the responses were cut into chunks on the way. The run may end with
/// the close or a failure of the tunneled connection.
pub proof fn law_downstream_is_kept(
    download: Download,
    session: ClientView,
    outcomes: Seq<ReadView>,
    bodies: Seq<Seq<Seq<u8>>>,
)
    requires
        session.live.open,
        one_connection(outcomes),
        cut_from(bodies, bodies_of(responses(outcomes))),
    ensures
        received(download, session, responses(outcomes), bodies) == bytes_read(outcomes),
    decreases outcomes.len(),
{
    let replies = responses(outcomes);
    if outcomes.len() > 0 {
        lemma_rest_of_connection(outcomes);
        let rest = outcomes.drop_first();
        assert(bodies[0].flatten() == bodies_of(replies)[0]);
        assert(replies.drop_first() =~= responses(rest));
        assert forall|i: int| 0 <= i < bodies.drop_first().len() implies (
        #[trigger] bodies.drop_first()[i]).flatten() == bodies_of(responses(rest))[i] by {
            assert(bodies[i + 1].flatten() == bodies_of(replies)[i + 1]);
        }
        let (polling, step) = download.answer(Some(replies.first().status));
        if step is Poll {
            lemma_copied(polling, session, bodies.first());
            let (read, session, written) = copied(polling, session, bodies.first());
            let (ended, session, step) = read.polled(session, PolledView::End);
            let (session, step) = if step is Flush {
                ended.flushed(session, true)
            } else {
                (session, step)
            };
            law_downstream_is_kept(ended, session, rest, bodies.drop_first());
        } else {
            assert(bytes_read(rest) =~= Seq::<u8>::empty());
            assert(bytes_read(outcomes) =~= Seq::<u8>::empty());
        }
    } else {
        assert(received(download, session, replies, bodies) =~= bytes_read(outcomes));
    }
}

/// No request and no response carries more bytes than the read that it comes from, so that with
/// reads within the limit every body is within the limit.
pub proof fn law_bodies_are_within_limit(session: ClientView, bytes: Seq<u8>)
    requires
        bytes.len() <= BODY_SIZE_LIMIT,
    ensures
        session.upload_read(ReadView::Read(bytes)).1 matches UploadStepView::Post(request)
            ==> request.body.len() <= BODY_SIZE_LIMIT,
        body_bytes(recv_verdict(ReadView::Read(bytes)).reply.body).len() <= BODY_SIZE_LIMIT,
{
}

/// The response to a `/create` request that went well reads as the identifier of the session, and
/// the client takes it as one.
pub proof fn law_created_session_is_accepted(id_bytes: Seq<u8>)
    requires
        id_bytes.len() == ID_SIZE_BINARY,
    ensures
        ({
            let id = id_text(id_bytes);
            let body = body_bytes(response(200, BodyView::Text(id)).body);
            decode_utf8(body) == id && is_session_id(decode_utf8(body))
        }),
{
    law_issued_ids_are_well_formed(id_bytes);
    encode_utf8_decode_utf8(id_text(id_bytes));
}

/// The identifier of a session comes through a request header unchanged.
pub proof fn law_id_comes_through_header(id: Seq<char>)
    requires
        is_session_id(id),
    ensures
        value_text(encode_utf8(id)) == Some(id),
{
    assert(is_ascii_chars(id));
    is_ascii_chars_encode_utf8(id);
    let bytes = encode_utf8(id);
    assert forall|i: int| 0 <= i < bytes.len() implies is_visible(#[trigger] bytes[i]) by {
        assert(is_hex_digit(id[i]));
    }
    assert(bytes.map_values(|byte: u8| byte as char) =~= id) by {
        assert forall|i: int| 0 <= i < id.len() implies bytes[i] as char == id[i] by {
            assert(is_hex_digit(id[i]));
            assert(id[i] as u8 == bytes[i]);
        }
    }
}

/// The server recognises the session of each request that a client makes for it: headers that
/// hold the identifier under the client's name for the header lead to the session's entry.
pub proof fn law_session_request_is_recognised<S>(
    session: ClientView,
    method: Method,
    name: Seq<char>,
    body: Seq<u8>,
    id: Seq<char>,
    headers: Map<Seq<char>, Seq<Seq<u8>>>,
    sessions: Map<Seq<char>, S>,
)
    requires
        is_session_id(session.id),
        session.request(method, name, body).session == Some(id),
        first_value(headers, client::SESSION_HEADER@) == Some(encode_utf8(id)),
        sessions.contains_key(session.id),
    ensures
        session_lookup(headers, sessions) == Ok::<S, ReplyView>(sessions[session.id]),
{
    law_id_comes_through_header(session.id);
    reveal_strlit("X-Layline-Session");
    reveal_strlit("x-layline-session");
    assert(header_key(client::SESSION_HEADER@) =~= header_key(server::SESSION_HEADER@));
}

/// A remote disconnect ends a session cleanly: a request for a session that has ended on the
/// server makes the client's task close the session and end well.
pub proof fn law_remote_disconnect_is_clean<A, S>(
    headers: Map<Seq<char>, Seq<Seq<u8>>>,
    server: ServerView<A, S>,
    session: ClientView,
    live: Liveness,
    download: Download,
)
    requires
        header_reading(headers, server::SESSION_HEADER@) == Some(Some(session.id)),
        live.open,
    ensures
        session_lookup(headers, server.ended(session.id, live).0.sessions) matches Err(reply)
            && session.upload_answer(Some(reply.status)) == UploadStepView::Stop(
            Ending { close: true, result: Ok(ClientOpStatus::Done) },
        ) && download.answer(Some(reply.status)).1 == DownloadStepView::Stop(
            Ending { close: true, result: Ok(ClientOpStatus::Done) },
        ),
{
}

/// Any answer but 200 and 404, or none at all, closes the session and is an error.
pub proof fn law_other_answers_are_errors(status: Option<u16>)
    requires
        status != Some(200u16),
        status != Some(404u16),
    ensures
        answer_ending(status) matches Some(ending) && ending.close && ending.result is Err,
{
}

/// Every round of the download of an open session, whatever has passed through it, is taken by the
/// server as a request for bytes of that session.
pub proof fn law_download_rounds_are_routed_to_recv(session: ClientView)
    requires
        session.live.open,
    ensures
        ({
            &&& session.download_round() matches DownloadStepView::Get(request)
            &&& request.url == session.base_url + "recv"@
            &&& route_of(
                target(request, session.base_url),
                method_name(request.method),
            ) is Recv
            &&& request.session == Some(session.id)
            &&& request.body.len() == 0
        }),
{
    law_requests_reach_their_handler(session, Seq::empty());
}

/// Every read that brings a byte, whatever has passed through the session, becomes a request that
/// the server takes as bytes for that session.
pub proof fn law_reads_are_routed_to_send(session: ClientView, bytes: Seq<u8>)
    requires
        bytes.len() > 0,
    ensures
        ({
            &&& session.upload_read(ReadView::Read(bytes)).1 matches UploadStepView::Post(request)
            &&& request.url == session.base_url + "send"@
            &&& route_of(
                target(request, session.base_url),
                method_name(request.method),
            ) is Send
            &&& request.session == Some(session.id)
            &&& request.body == bytes
        }),
{
    law_requests_reach_their_handler(session, bytes);
}

/// Closing an open session makes a request that the server takes as one to end that session.
pub proof fn law_closing_is_routed_to_close(session: ClientView)
    requires
        session.live.open,
    ensures
        ({
            &&& session.closing().1 matches CloseStepView::Request(request)
            &&& request.url == session.base_url + "close"@
            &&& route_of(
                target(request, session.base_url),
                method_name(request.method),
            ) is Close
            &&& request.session == Some(session.id)
        }),
{
    law_requests_reach_their_handler(session, Seq::empty());
}

} // verus!
