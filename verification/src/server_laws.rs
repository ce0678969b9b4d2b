//! What callers can rely on of the server. Each law speaks of calls by their arguments and their
//! results.

use crate::base_laws::{has_hidden_byte, has_status, is_bare, lemma_has_status, reads_as, spells};
use crate::headers::{header_contents, header_key, is_visible};
use crate::liveness::{Liveness, Watchdog};
use crate::reply::{Body, BodyView, Reply};
use crate::server::{
    do_close, do_recv, exit_code, not_found, recv_plan, recv_verdict, router, CreateStep, Created,
    Route, SendStep, SendTransfer, ServerState, ServerView, Session, Verdict,
};
use crate::transfer::{Polled, ReadOutcome, ReadPlan, ReadView};
use hyper::header::HeaderValue;
use hyper::HeaderMap;
use vstd::prelude::*;

verus! {

/// Each handler takes one target with one method, letter for letter, and everything else is not
/// found.
pub proof fn law_routes_are_literal(uri: &str, method: &str, route: Route)
    requires
        call_ensures(router, (uri, method), route),
    ensures
        route is Create <==> uri@ == "/create"@ && method@ == "GET"@,
        route is Recv <==> uri@ == "/recv"@ && method@ == "GET"@,
        route is Send <==> uri@ == "/send"@ && method@ == "POST"@,
        route is Close <==> uri@ == "/close"@ && method@ == "DELETE"@,
{
    reveal_strlit("/create");
    reveal_strlit("/recv");
    reveal_strlit("/send");
    reveal_strlit("/close");
    assert("/send"@.len() != "/create"@.len());
    assert("/recv"@.len() != "/create"@.len());
    assert("/recv"@[1] != "/send"@[1]);
    assert("/close"@.len() != "/create"@.len());
    assert("/close"@.len() != "/send"@.len());
}

/// A request that no handler takes is answered with 404 and no body.
pub proof fn law_unrouted_requests_are_not_found(reply: Reply)
    requires
        call_ensures(not_found, (), reply),
    ensures
        is_bare(reply, 404),
{
    lemma_has_status(reply, 404, BodyView::Empty);
}

/// A server begins with an empty table, and with the destination and the limits that it is given.
pub proof fn law_server_begins_empty<A: Copy, S>(
    dest: A,
    opts: (usize, u32),
    server: ServerState<A, S>,
)
    requires
        call_ensures(ServerState::<A, S>::new, (dest, opts), server),
    ensures
        forall|id: Seq<char>| !server@.sessions.contains_key(id),
        server@.sessions.len() == 0,
        server@.dest == dest,
        server@.max_sessions == opts.0,
        server@.session_timeout == opts.1,
        server@.within_limit(),
{
}

/// Within its limit means no more sessions than allowed.
pub proof fn law_limit_is_the_maximum<A, S>(server: ServerView<A, S>)
    requires
        server.sessions.dom().finite(),
    ensures
        server.within_limit() <==> server.sessions.len() <= server.max_sessions,
{
}

/// A server has room for a session exactly as long as it has fewer of them than it is allowed: a
/// request then leads to a connection to the destination that the server was set up with, under
/// the identifier that spells the bytes; else it is answered with 500.
pub proof fn law_room_is_used_up_to_the_limit<A: Copy, S>(
    server: &ServerState<A, S>,
    id_bytes: &Vec<u8>,
    step: CreateStep<A>,
)
    requires
        call_ensures(ServerState::<A, S>::begin_create, (server, id_bytes), step),
    ensures
        step is Connect <==> server@.sessions.len() < server@.max_sessions,
        step matches CreateStep::Connect { id, dest } ==> {
            &&& dest == server@.dest
            &&& id@.len() == 2 * id_bytes@.len()
            &&& forall|i: int|
                0 <= i < id_bytes@.len() ==> spells(
                    #[trigger] id_bytes@[i],
                    id@[2 * i],
                    id@[2 * i + 1],
                )
        },
        step matches CreateStep::Refuse(reply) ==> is_bare(reply, 500),
{
    match step {
        CreateStep::Connect { id, dest } => {
            lemma_spelling(id_bytes@, id@);
        },
        CreateStep::Refuse(reply) => {
            lemma_has_status(reply, 500, BodyView::Empty);
        },
    }
}

proof fn lemma_spelling(bytes: Seq<u8>, text: Seq<char>)
    requires
        text == crate::ident::id_text(bytes),
    ensures
        text.len() == 2 * bytes.len(),
        forall|i: int|
            0 <= i < bytes.len() ==> spells(#[trigger] bytes[i], text[2 * i], text[2 * i + 1]),
{
    reveal_strlit("0123456789abcdef");
    assert forall|i: int| 0 <= i < bytes.len() implies spells(
        #[trigger] bytes[i],
        text[2 * i],
        text[2 * i + 1],
    ) by {
        let h = bytes[i] as int / 16;
        let l = bytes[i] as int % 16;
        assert((2 * i) / 2 == i && (2 * i + 1) / 2 == i);
        assert((2 * i) % 2 == 0 && (2 * i + 1) % 2 == 1);
        assert(crate::base_laws::digits()[h] == text[2 * i]);
        assert(crate::base_laws::digits()[l] == text[2 * i + 1]);
    }
}

/// With an identifier drawn at random there is the same room, the same destination, and an
/// identifier of thirty-two digits.
pub proof fn law_drawn_session_has_the_same_room<A: Copy, S>(
    server: &ServerState<A, S>,
    step: CreateStep<A>,
)
    requires
        call_ensures(ServerState::<A, S>::do_create, (server,), step),
    ensures
        step is Connect <==> server@.sessions.len() < server@.max_sessions,
        step matches CreateStep::Connect { id, dest } ==> {
            &&& dest == server@.dest
            &&& id@.len() == 32
            &&& forall|i: int|
                0 <= i < id@.len() ==> ('0' <= #[trigger] id@[i] && id@[i] <= '9' || 'a' <= id@[i]
                    && id@[i] <= 'f')
        },
        step matches CreateStep::Refuse(reply) ==> is_bare(reply, 500),
{
    match step {
        CreateStep::Refuse(reply) => {
            lemma_has_status(reply, 500, BodyView::Empty);
        },
        _ => {},
    }
}

/// A connection that was made becomes a session exactly if there is room for it. It is then
/// answered with its identifier, and it alone is added to the table; else the answer is 500 and
/// nothing changes.
pub proof fn law_connection_becomes_session<A: Copy, S>(
    server: &mut ServerState<A, S>,
    id: String,
    entry: Option<S>,
    created: Created,
)
    requires
        old(server)@.within_limit(),
        call_ensures(ServerState::<A, S>::finish_create, (server, id, entry), created),
    ensures
        created.entered <==> entry is Some && old(server)@.sessions.len()
            < old(server)@.max_sessions,
        created.entered ==> {
            &&& has_status(created.reply, 200)
            &&& created.reply.body matches Body::Text(text)
            &&& text@ == id@
            &&& final(server)@.sessions.contains_key(id@)
            &&& Some(final(server)@.sessions[id@]) == entry
            &&& forall|other: Seq<char>|
                other != id@ ==> final(server)@.sessions.contains_key(other)
                    == old(server)@.sessions.contains_key(other)
            &&& forall|other: Seq<char>|
                other != id@ && old(server)@.sessions.contains_key(other)
                    ==> final(server)@.sessions[other] == old(server)@.sessions[other]
        },
        !created.entered ==> is_bare(created.reply, 500) && final(server)@.sessions
            == old(server)@.sessions,
        final(server)@.dest == old(server)@.dest,
        final(server)@.max_sessions == old(server)@.max_sessions,
        final(server)@.session_timeout == old(server)@.session_timeout,
        final(server)@.sessions.len() <= final(server)@.max_sessions,
{
    if entry is Some && old(server)@.sessions.len() < old(server)@.max_sessions {
        lemma_has_status(created.reply, 200, BodyView::Text(id@));
    } else {
        lemma_has_status(created.reply, 500, BodyView::Empty);
    }
}

/// A session is found in the table under its identifier and under nothing else.
pub proof fn law_table_is_searched_by_id<A: Copy, S>(
    server: &ServerState<A, S>,
    req_id: &str,
    entry: Option<&S>,
)
    requires
        call_ensures(ServerState::<A, S>::get_session_from_req, (server, req_id), entry),
    ensures
        entry is Some <==> server@.sessions.contains_key(req_id@),
        entry matches Some(found) ==> *found == server@.sessions[req_id@],
{
}

/// Whether a request names this session: its first session header reads as the identifier.
pub open spec fn names(headers: HeaderMap<HeaderValue>, id: Seq<char>) -> bool {
    &&& header_contents(headers).contains_key("x-layline-session"@)
    &&& reads_as(header_contents(headers)["x-layline-session"@][0], id)
}

/// A request reaches the session that it names if that is in the table, and is answered with 404
/// if it is not; a request that names none is answered with 404, and one whose session header is
/// no text with 500.
pub proof fn law_requests_reach_their_session<A: Copy, S>(
    server: &ServerState<A, S>,
    headers: &HeaderMap<HeaderValue>,
    id: Seq<char>,
    found: Result<&S, Reply>,
)
    requires
        call_ensures(ServerState::<A, S>::get_session, (server, headers), found),
    ensures
        names(*headers, id) && server@.sessions.contains_key(id) ==> (found matches Ok(entry)
            && *entry == server@.sessions[id]),
        names(*headers, id) && !server@.sessions.contains_key(id) ==> (found matches Err(reply)
            && is_bare(reply, 404)),
        !header_contents(*headers).contains_key("x-layline-session"@) ==> (found matches Err(reply)
            && is_bare(reply, 404)),
        header_contents(*headers).contains_key("x-layline-session"@) && has_hidden_byte(
            header_contents(*headers)["x-layline-session"@][0],
        ) ==> (found matches Err(reply) && is_bare(reply, 500)),
{
    reveal_strlit("x-layline-session");
    assert(header_key("x-layline-session"@) =~= "x-layline-session"@);
    let contents = header_contents(*headers);
    if contents.contains_key("x-layline-session"@) {
        let value = contents["x-layline-session"@][0];
        if names(*headers, id) {
            assert forall|i: int| 0 <= i < value.len() implies is_visible(#[trigger] value[i]) by {
                assert(id[i] as int == value[i] as int);
            }
            assert(value.map_values(|byte: u8| byte as char) =~= id) by {
                assert forall|i: int| 0 <= i < id.len() implies value[i] as char == id[i] by {
                    assert(id[i] as int == value[i] as int);
                }
            }
        }
        if has_hidden_byte(value) {
            let i = choose|i: int|
                0 <= i < value.len() && !(#[trigger] value[i] == 9 || 32 <= value[i] && value[i]
                    <= 126);
            assert(!is_visible(value[i]));
        }
    }
    match found {
        Ok(_) => {},
        Err(reply) => {
            if reply@ == crate::reply::response(404, BodyView::Empty) {
                lemma_has_status(reply, 404, BodyView::Empty);
            } else {
                lemma_has_status(reply, 500, BodyView::Empty);
            }
        },
    }
}

/// Ending a session closes it and takes it, and no other one, out of the table; a session that
/// is closed already leaves the table alone.
pub proof fn law_shutdown_removes_one_session<A: Copy, S>(
    server: &mut ServerState<A, S>,
    session: &mut Session,
)
    requires
        old(server)@.within_limit(),
        call_ensures(ServerState::<A, S>::shutdown, (server, session), ()),
    ensures
        !final(session).live.open,
        final(session).id == old(session).id,
        final(session).live.heartbeat == old(session).live.heartbeat,
        old(session).live.open ==> !final(server)@.sessions.contains_key(old(session).id@),
        forall|other: Seq<char>|
            other != old(session).id@ || !old(session).live.open
                ==> final(server)@.sessions.contains_key(other)
                == old(server)@.sessions.contains_key(other),
        forall|other: Seq<char>|
            final(server)@.sessions.contains_key(other) ==> final(server)@.sessions[other]
                == old(server)@.sessions[other],
        final(server)@.dest == old(server)@.dest,
        final(server)@.max_sessions == old(server)@.max_sessions,
        final(server)@.session_timeout == old(server)@.session_timeout,
{
}

/// Carrying out a verdict sends its response, counts one use exactly if it says so, and ends the
/// session exactly if it says so; no other session is touched.
pub proof fn law_verdict_is_carried_out<A: Copy, S>(
    server: &mut ServerState<A, S>,
    session: &mut Session,
    verdict: Verdict,
    reply: Reply,
)
    requires
        old(server)@.within_limit(),
        call_ensures(ServerState::<A, S>::conclude, (server, session, verdict), reply),
    ensures
        reply == verdict.reply,
        final(session).id == old(session).id,
        final(session).live.open == (old(session).live.open && !verdict.shutdown),
        verdict.heartbeat ==> final(session).live.heartbeat as int == (old(session).live.heartbeat
            + 1) % 0x1_0000_0000_0000_0000,
        !verdict.heartbeat ==> final(session).live.heartbeat == old(session).live.heartbeat,
        verdict.shutdown && old(session).live.open ==> !final(server)@.sessions.contains_key(
            old(session).id@,
        ),
        !verdict.shutdown ==> final(server)@ == old(server)@,
        forall|other: Seq<char>|
            other != old(session).id@ || !old(session).live.open
                ==> final(server)@.sessions.contains_key(other)
                == old(server)@.sessions.contains_key(other),
        forall|other: Seq<char>|
            final(server)@.sessions.contains_key(other) ==> final(server)@.sessions[other]
                == old(server)@.sessions[other],
        final(server)@.dest == old(server)@.dest,
        final(server)@.max_sessions == old(server)@.max_sessions,
        final(server)@.session_timeout == old(server)@.session_timeout,
{
}

/// A new session is open, unused, and called as it is told.
pub proof fn law_session_begins_open(id: String, session: Session)
    requires
        call_ensures(Session::new, (id,), session),
    ensures
        session.id == id,
        session.live.open,
        session.live.heartbeat == 0,
{
}

/// The watch over a session begins with nothing counted, and with a first look a second later if
/// the session is open.
pub proof fn law_session_watch_begins(session: &Session, started: (Watchdog, Option<u64>))
    requires
        call_ensures(Session::start_watch, (session,), started),
    ensures
        started.0.idle_count == 0,
        started.0.baseline == session.live.heartbeat,
        session.live.open ==> started.1 == Some(1u64),
        !session.live.open ==> started.1 is None,
{
}

/// A look at a session ends it exactly if its counter has stood still for as many looks before as
/// the timeout of the server says. Else the look is counted, or the count starts again where the
/// counter has moved, and nothing else changes; the next look is due a second later as long as
/// the session is open.
pub proof fn law_look_goes_by_server_timeout<A: Copy, S>(
    server: &mut ServerState<A, S>,
    session: &mut Session,
    watchdog: &mut Watchdog,
    pause: Option<u64>,
)
    requires
        old(server)@.within_limit(),
        call_ensures(
            ServerState::<A, S>::timeout_watchdog,
            (server, session, watchdog),
            pause,
        ),
    ensures
        ({
            let moved = old(watchdog).baseline != old(session).live.heartbeat;
            let expired = !moved && old(watchdog).idle_count >= old(server)@.session_timeout;
            &&& final(watchdog).baseline == old(session).live.heartbeat
            &&& moved ==> final(watchdog).idle_count == 0
            &&& !moved && !expired ==> final(watchdog).idle_count == old(watchdog).idle_count + 1
            &&& expired ==> final(watchdog).idle_count == old(watchdog).idle_count
            &&& expired ==> !final(session).live.open && pause is None
            &&& expired && old(session).live.open ==> !final(server)@.sessions.contains_key(
                old(session).id@,
            )
            &&& !expired ==> final(server)@ == old(server)@
            &&& !expired ==> final(session).live == old(session).live
            &&& !expired && old(session).live.open ==> pause == Some(1u64)
            &&& !old(session).live.open ==> pause is None
        }),
        forall|other: Seq<char>|
            other != old(session).id@ ==> final(server)@.sessions.contains_key(other)
                == old(server)@.sessions.contains_key(other),
        forall|other: Seq<char>|
            final(server)@.sessions.contains_key(other) ==> final(server)@.sessions[other]
                == old(server)@.sessions[other],
        final(server)@.dest == old(server)@.dest,
        final(session).id == old(session).id,
        final(session).live.heartbeat == old(session).live.heartbeat,
        final(server)@.max_sessions == old(server)@.max_sessions,
        final(server)@.session_timeout == old(server)@.session_timeout,
{
}

/// The server, an idle session, its watchdog and the pause after a number of looks, each one made
/// with the watchdog that the one before left.
pub open spec fn idle_looks<A, S>(
    server: ServerView<A, S>,
    id: Seq<char>,
    live: Liveness,
    looks: nat,
) -> (ServerView<A, S>, Liveness, Watchdog, Option<u64>)
    decreases looks,
{
    if looks == 0 {
        (server, live, Watchdog { idle_count: 0, baseline: live.heartbeat }, Some(1))
    } else {
        let before = idle_looks(server, id, live, (looks - 1) as nat);
        before.0.watched(id, before.1, before.2)
    }
}

/// An open session through which nothing passes is still there after as many looks as the timeout
/// says, and is ended by the next one.
pub proof fn law_idle_session_is_ended_in_time<A, S>(
    server: ServerView<A, S>,
    id: Seq<char>,
    live: Liveness,
    looks: nat,
)
    requires
        live.open,
        looks <= server.session_timeout + 1,
    ensures
        ({
            let (after, after_live, watchdog, pause) = idle_looks(server, id, live, looks);
            &&& looks <= server.session_timeout ==> {
                &&& after == server
                &&& after_live == live
                &&& watchdog.idle_count == looks
                &&& watchdog.baseline == live.heartbeat
                &&& pause == Some(1u64)
            }
            &&& looks == server.session_timeout + 1 ==> {
                &&& after.sessions == server.sessions.remove(id)
                &&& !after_live.open
                &&& pause is None
            }
        }),
    decreases looks,
{
    if looks > 0 {
        law_idle_session_is_ended_in_time(server, id, live, (looks - 1) as nat);
    }
}

/// A `/send` transfer begins with nothing counted.
pub proof fn law_send_begins_empty(transfer: SendTransfer)
    requires
        call_ensures(SendTransfer::new, (), transfer),
    ensures
        !transfer.nonempty,
{
}

/// Each chunk of a `/send` body is written as it came. The end of the body is answered with 200
/// and leaves the session alone, but for counting as a use if a byte has come; a body that fails
/// is answered with 500 and ends the session.
pub proof fn law_send_writes_each_chunk(
    transfer: &mut SendTransfer,
    polled: Polled,
    step: SendStep,
)
    requires
        call_ensures(SendTransfer::on_body, (transfer, polled), step),
    ensures
        polled matches Polled::Chunk(bytes) ==> (step matches SendStep::Write(own) && own@
            == bytes@),
        polled matches Polled::Chunk(bytes) ==> final(transfer).nonempty == (
        old(transfer).nonempty || bytes@.len() > 0),
        !(polled is Chunk) ==> final(transfer).nonempty == old(transfer).nonempty,
        polled is End ==> (step matches SendStep::Finish(verdict) && is_bare(verdict.reply, 200)
            && !verdict.shutdown && verdict.heartbeat == old(transfer).nonempty),
        polled is Failed ==> (step matches SendStep::Finish(verdict) && is_bare(verdict.reply, 500)
            && verdict.shutdown && !verdict.heartbeat),
{
    match step {
        SendStep::Write(_) => {},
        SendStep::Finish(verdict) => {
            if polled is End {
                lemma_has_status(verdict.reply, 200, BodyView::Empty);
            } else {
                lemma_has_status(verdict.reply, 500, BodyView::Empty);
            }
        },
    }
}

/// A `/send` request goes on exactly as long as its writes succeed; one that fails is answered
/// with 500 and ends the session.
pub proof fn law_failed_write_ends_session(
    transfer: &SendTransfer,
    written: bool,
    over: Option<Verdict>,
)
    requires
        call_ensures(SendTransfer::on_write, (transfer, written), over),
    ensures
        written <==> over is None,
        over matches Some(verdict) ==> is_bare(verdict.reply, 500) && verdict.shutdown
            && !verdict.heartbeat,
{
    match over {
        Some(verdict) => {
            lemma_has_status(verdict.reply, 500, BodyView::Empty);
        },
        None => {},
    }
}

/// A `/recv` request reads at most one mebibyte, and waits at most ten seconds for it.
pub proof fn law_recv_is_short_and_small(plan: ReadPlan)
    requires
        call_ensures(recv_plan, (), plan),
    ensures
        plan.limit == 0x10_0000,
        plan.wait == 10,
{
}

/// A `/recv` request hands on exactly the bytes that were read. It ends the session exactly if
/// the read failed or found the connection closed, fails exactly if the read failed, and counts
/// as a use exactly if a byte came.
pub proof fn law_recv_keeps_live_sessions(outcome: ReadOutcome, verdict: Verdict)
    requires
        call_ensures(do_recv, (outcome,), verdict),
    ensures
        verdict.shutdown <==> outcome is Failed || (outcome matches ReadOutcome::Read(bytes)
            && bytes@.len() == 0),
        verdict.heartbeat <==> (outcome matches ReadOutcome::Read(bytes) && bytes@.len() > 0),
        has_status(
            verdict.reply,
            if outcome is Failed {
                500
            } else {
                200
            },
        ),
        outcome matches ReadOutcome::Read(bytes) ==> (verdict.reply.body matches Body::Bytes(own)
            && own@ == bytes@),
        !(outcome is Read) ==> verdict.reply.body is Empty,
{
    match outcome {
        ReadOutcome::Read(bytes) => {
            lemma_has_status(verdict.reply, 200, BodyView::Bytes(bytes@));
        },
        ReadOutcome::TimedOut => {
            lemma_has_status(verdict.reply, 200, BodyView::Empty);
        },
        ReadOutcome::Failed => {
            lemma_has_status(verdict.reply, 500, BodyView::Empty);
        },
    }
}

/// A `/close` request is answered with 200 and ends the session.
pub proof fn law_close_ends_session(verdict: Verdict)
    requires
        call_ensures(do_close, (), verdict),
    ensures
        is_bare(verdict.reply, 200),
        verdict.shutdown,
        !verdict.heartbeat,
{
    lemma_has_status(verdict.reply, 200, BodyView::Empty);
}

/// The program ends with 0 exactly if the server ended well, and else with -1.
pub proof fn law_server_exit_code(served: bool, code: i32)
    requires
        call_ensures(exit_code, (served,), code),
    ensures
        code == 0 <==> served,
        code == -1 <==> !served,
{
}

/// A server is full exactly if it has as many sessions as it is allowed.
pub proof fn law_full_means_at_the_maximum<A, S>(server: ServerView<A, S>)
    requires
        server.within_limit(),
    ensures
        server.is_full() <==> server.sessions.len() == server.max_sessions,
{
}

/// The server's look leaves the watchdog as a look with the timeout of the server does, so that
/// idleness adds up over the looks: the idle count grows by one, or starts again.
pub proof fn law_idleness_adds_up<A, S>(
    server: ServerView<A, S>,
    id: Seq<char>,
    live: Liveness,
    watchdog: Watchdog,
)
    ensures
        server.watched(id, live, watchdog).2 == watchdog.look(
            server.session_timeout,
            live.open,
            live.heartbeat,
        ).0,
        server.watched(id, live, watchdog).2.baseline == live.heartbeat,
        watchdog.baseline != live.heartbeat ==> server.watched(id, live, watchdog).2.idle_count
            == 0,
        watchdog.baseline == live.heartbeat && watchdog.idle_count < server.session_timeout
            ==> server.watched(id, live, watchdog).2.idle_count == watchdog.idle_count + 1,
{
}

/// A `/recv` whose read brings a byte leaves the session open; only a failed read and one that
/// finds the connection closed end it.
pub proof fn law_recv_ends_only_closed_connections(outcome: ReadView)
    ensures
        recv_verdict(outcome).shutdown <==> outcome is Failed || outcome == ReadView::Read(
            Seq::empty(),
        ),
{
    if let ReadView::Read(bytes) = outcome {
        if bytes.len() == 0 {
            assert(bytes =~= Seq::empty());
        }
    }
}

} // verus!
