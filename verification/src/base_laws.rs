//! What callers can rely on of the small parts: texts, identifiers, headers, liveness, responses
//! and options. Each law speaks of a call by its arguments and its result.

use crate::constants::{
    BODY_SIZE_LIMIT, DEFAULT_MAX_SESSIONS, DEFAULT_SESSION_TIMEOUT, HTTP_TIMEOUT,
    ID_SIZE_ASCII_HEX, ID_SIZE_BINARY, LONG_POLL_TIMEOUT, ONE_SECOND,
};
use crate::headers::{get_xff_ip, header_contents, read_header, HeaderRead};
use crate::ident::{check_session_id, draw_id_bytes, encode_id};
use crate::liveness::{Liveness, WatchStep, Watchdog};
use crate::options::{log_destination, resolve, LogDest, Opts};
use crate::reply::{do_response, make_response, Body, Handled, Reply};
use crate::text::{has_prefix, same_text, starts_with};
use hyper::header::HeaderValue;
use hyper::HeaderMap;
use vstd::prelude::*;

verus! {

/// A text starts with another one exactly if the other one can be completed to it.
pub proof fn law_prefix_can_be_completed(text: &str, prefix: &str, found: bool)
    requires
        call_ensures(starts_with, (text, prefix), found),
    ensures
        found <==> exists|rest: Seq<char>| text@ == #[trigger] (prefix@ + rest),
{
    if found {
        let rest = text@.skip(prefix@.len() as int);
        assert(text@ =~= text@.take(prefix@.len() as int) + rest);
        assert(text@ == prefix@ + rest);
    } else if exists|rest: Seq<char>| text@ == #[trigger] (prefix@ + rest) {
        let rest = choose|rest: Seq<char>| text@ == #[trigger] (prefix@ + rest);
        assert(text@.take(prefix@.len() as int) =~= prefix@);
        assert(has_prefix(text@, prefix@));
    }
}

/// Two texts are the same exactly if each starts with the other.
pub proof fn law_same_text_is_mutual_prefix(
    left: &str,
    right: &str,
    same: bool,
    forth: bool,
    back: bool,
)
    requires
        call_ensures(same_text, (left, right), same),
        call_ensures(starts_with, (left, right), forth),
        call_ensures(starts_with, (right, left), back),
    ensures
        same == (forth && back),
        same == (left@ == right@),
{
    law_prefix_can_be_completed(left, right, forth);
    law_prefix_can_be_completed(right, left, back);
    if same {
        assert(left@ =~= right@ + Seq::empty());
        assert(right@ =~= left@ + Seq::empty());
    }
    if forth && back {
        let more = choose|rest: Seq<char>| left@ == #[trigger] (right@ + rest);
        let less = choose|rest: Seq<char>| right@ == #[trigger] (left@ + rest);
        assert(left@.len() == right@.len() + more.len());
        assert(right@.len() == left@.len() + less.len());
        assert(left@ =~= right@);
    }
}

/// The digits of an identifier, in the order of their values.
pub open spec fn digits() -> Seq<char> {
    "0123456789abcdef"@
}

/// Whether two digits make a byte, the first one counting sixteen times.
pub open spec fn spells(byte: u8, high: char, low: char) -> bool {
    exists|h: int, l: int|
        #![trigger digits()[h], digits()[l]]
        0 <= h < 16 && 0 <= l < 16 && digits()[h] == high && digits()[l] == low && byte == 16 * h
            + l
}

/// An identifier spells its bytes, each in two digits, so that they can be read back.
pub proof fn law_id_spells_its_bytes(bytes: &Vec<u8>, text: String)
    requires
        call_ensures(encode_id, (bytes,), text),
    ensures
        text@.len() == 2 * bytes@.len(),
        forall|i: int|
            0 <= i < bytes@.len() ==> spells(#[trigger] bytes@[i], text@[2 * i], text@[2 * i + 1]),
{
    reveal_strlit("0123456789abcdef");
    assert forall|i: int| 0 <= i < bytes@.len() implies spells(
        #[trigger] bytes@[i],
        text@[2 * i],
        text@[2 * i + 1],
    ) by {
        let h = bytes@[i] as int / 16;
        let l = bytes@[i] as int % 16;
        assert((2 * i) / 2 == i && (2 * i + 1) / 2 == i);
        assert((2 * i) % 2 == 0 && (2 * i + 1) % 2 == 1);
        assert(digits()[h] == text@[2 * i]);
        assert(digits()[l] == text@[2 * i + 1]);
    }
}

/// An identifier is accepted exactly if it is thirty-two characters long and has no character
/// but the digits.
pub proof fn law_accepted_ids_are_digits(id: &str, valid: bool)
    requires
        call_ensures(check_session_id, (id,), valid),
    ensures
        valid <==> id@.len() == 32 && forall|i: int|
            0 <= i < id@.len() ==> digits().contains(#[trigger] id@[i]),
{
    reveal_strlit("0123456789abcdef");
    assert forall|i: int| 0 <= i < id@.len() && crate::ident::is_hex_digit(id@[i]) implies digits()
        .contains(#[trigger] id@[i]) by {
        let c = id@[i];
        let at = if '0' <= c <= '9' {
            c as int - '0' as int
        } else {
            c as int - 'a' as int + 10
        };
        assert(digits()[at] == c);
    }
    assert forall|i: int| 0 <= i < id@.len() && digits().contains(#[trigger] id@[i]) implies
        crate::ident::is_hex_digit(id@[i]) by {
        let at = choose|at: int| 0 <= at < digits().len() && digits()[at] == id@[i];
        assert(0 <= at < 16);
    }
}

/// Whatever bytes are drawn, the identifier made of them is accepted.
pub proof fn law_drawn_ids_are_accepted(bytes: Vec<u8>, text: String, id: &str, valid: bool)
    requires
        call_ensures(draw_id_bytes, (), bytes),
        call_ensures(encode_id, (&bytes,), text),
        id@ == text@,
        call_ensures(check_session_id, (id,), valid),
    ensures
        bytes@.len() == 16,
        valid,
{
    law_id_spells_its_bytes(&bytes, text);
    law_accepted_ids_are_digits(id, valid);
    assert forall|i: int| 0 <= i < id@.len() implies digits().contains(#[trigger] id@[i]) by {
        let at = i / 2;
        assert(spells(bytes@[at], text@[2 * at], text@[2 * at + 1]));
        reveal_strlit("0123456789abcdef");
        assert(i == 2 * at || i == 2 * at + 1);
    }
}

/// Whether `key` is `name` with its capital ASCII letters made small, and nothing else changed.
pub open spec fn small_letters(name: Seq<char>, key: Seq<char>) -> bool {
    &&& key.len() == name.len()
    &&& forall|i: int|
        0 <= i < name.len() ==> #[trigger] key[i] as int == name[i] as int + (if 'A' <= name[i]
            && name[i] <= 'Z' {
            32int
        } else {
            0
        })
}

/// Whether these are the characters of a header value, each of them a tab or a visible one.
pub open spec fn reads_as(value: Seq<u8>, text: Seq<char>) -> bool {
    &&& value.len() == text.len()
    &&& forall|i: int|
        0 <= i < value.len() ==> (#[trigger] text[i]) as int == value[i] as int && (value[i] == 9
            || 32 <= value[i] && value[i] <= 126)
}

/// Whether a header value has a byte that is no text.
pub open spec fn has_hidden_byte(value: Seq<u8>) -> bool {
    exists|i: int|
        0 <= i < value.len() && !(#[trigger] value[i] == 9 || 32 <= value[i] && value[i] <= 126)
}

/// A header is read as what stands first under its name: nothing, something unreadable, or the
/// text that its bytes are.
pub proof fn law_header_is_read(
    headers: &HeaderMap<HeaderValue>,
    name: &str,
    key: Seq<char>,
    read: HeaderRead,
)
    requires
        call_ensures(read_header, (headers, name), read),
        small_letters(name@, key),
    ensures
        read is Missing <==> !header_contents(*headers).contains_key(key),
        read is Unreadable <==> header_contents(*headers).contains_key(key) && has_hidden_byte(
            header_contents(*headers)[key][0],
        ),
        read matches HeaderRead::Text(text) ==> header_contents(*headers).contains_key(key)
            && reads_as(header_contents(*headers)[key][0], text@),
{
    assert(crate::headers::header_key(name@) =~= key);
    let contents = header_contents(*headers);
    if contents.contains_key(key) {
        let value = contents[key][0];
        if has_hidden_byte(value) {
            let i = choose|i: int|
                0 <= i < value.len() && !(#[trigger] value[i] == 9 || 32 <= value[i] && value[i]
                    <= 126);
            assert(!crate::headers::is_visible(value[i]));
        } else {
            assert forall|i: int| 0 <= i < value.len() implies crate::headers::is_visible(
                #[trigger] value[i],
            ) by {}
        }
    }
}

/// The address that a proxy reports is the text of its header, and there is none exactly where
/// the header has no text.
pub proof fn law_reported_address_is_header_text(
    headers: &HeaderMap<HeaderValue>,
    name: &str,
    read: HeaderRead,
    ip: Option<String>,
)
    requires
        call_ensures(read_header, (headers, name), read),
        call_ensures(get_xff_ip, (headers, name), ip),
    ensures
        ip is Some <==> read is Text,
        ip matches Some(text) ==> (read matches HeaderRead::Text(own) && own@ == text@),
{
}

/// A session begins open and unused, can be closed once, and counts its uses.
pub proof fn law_liveness_is_tracked(
    fresh: Liveness,
    closed: &mut Liveness,
    first: bool,
    used: &mut Liveness,
)
    requires
        call_ensures(Liveness::new, (), fresh),
        call_ensures(Liveness::close, (closed,), first),
        call_ensures(Liveness::beat, (used,), ()),
    ensures
        fresh.open && fresh.heartbeat == 0,
        first == old(closed).open,
        !final(closed).open,
        final(closed).heartbeat == old(closed).heartbeat,
        final(used).open == old(used).open,
        final(used).heartbeat as int == (old(used).heartbeat + 1) % 0x1_0000_0000_0000_0000,
        final(used).heartbeat != old(used).heartbeat,
{
}

/// A watch begins at the counter of the session, with nothing counted, and with a pause of one
/// second if the session is open.
pub proof fn law_watch_begins(live: &Liveness, started: (Watchdog, WatchStep))
    requires
        call_ensures(Watchdog::start, (live,), started),
    ensures
        started.0.idle_count == 0,
        started.0.baseline == live.heartbeat,
        live.open <==> started.1 == WatchStep::Sleep(1),
        !live.open <==> started.1 is Stop,
{
}

/// A look finds the session in use exactly if its counter has moved, and starts the count again;
/// else it counts one more. It ends the session exactly if the count has reached the timeout, and
/// goes on, a second later, as long as the session is open.
pub proof fn law_look_counts_idleness(
    watchdog: &mut Watchdog,
    timeout: u32,
    live: &Liveness,
    step: WatchStep,
)
    requires
        call_ensures(Watchdog::tick, (watchdog, timeout, live), step),
    ensures
        final(watchdog).baseline == live.heartbeat,
        old(watchdog).baseline != live.heartbeat ==> final(watchdog).idle_count == 0,
        old(watchdog).baseline == live.heartbeat && old(watchdog).idle_count < timeout
            ==> final(watchdog).idle_count == old(watchdog).idle_count + 1,
        step is Expire <==> old(watchdog).baseline == live.heartbeat && old(watchdog).idle_count
            >= timeout,
        step is Expire ==> final(watchdog).idle_count == old(watchdog).idle_count,
        !(step is Expire) ==> (live.open <==> step == WatchStep::Sleep(1)),
        !(step is Expire) ==> (!live.open <==> step is Stop),
{
}

/// Whether a response has this status and the one header that forbids caching.
pub open spec fn has_status(reply: Reply, status: u16) -> bool {
    &&& reply.status == status
    &&& reply.headers@.len() == 1
    &&& reply.headers@[0].0@ == "Cache-Control"@
    &&& reply.headers@[0].1@ == "no-cache"@
}

/// Whether a response has this status, the header that forbids caching, and no body.
pub open spec fn is_bare(reply: Reply, status: u16) -> bool {
    has_status(reply, status) && reply.body is Empty
}

/// A reply that says what `response` says has that status and forbids caching.
pub(crate) proof fn lemma_has_status(reply: Reply, status: u16, body: crate::reply::BodyView)
    requires
        reply@ == crate::reply::response(status, body),
    ensures
        has_status(reply, status),
        body is Empty ==> reply.body is Empty,
        body matches crate::reply::BodyView::Bytes(bytes) ==> (reply.body matches Body::Bytes(own)
            && own@ == bytes),
        body matches crate::reply::BodyView::Text(text) ==> (reply.body matches Body::Text(own)
            && own@ == text),
{
    assert(reply@.headers.len() == reply.headers@.len());
    assert(reply@.headers[0] == (reply.headers@[0].0@, reply.headers@[0].1@));
}

/// A response has the status and the body that it was made with, and forbids caching.
pub proof fn law_response_is_as_made(status: u16, body: Body, reply: Reply)
    requires
        call_ensures(make_response, (status, body), reply),
    ensures
        has_status(reply, status),
        body is Empty <==> reply.body is Empty,
        body matches Body::Bytes(bytes) ==> (reply.body matches Body::Bytes(own) && own@
            == bytes@),
        body matches Body::Text(text) ==> (reply.body matches Body::Text(own) && own@ == text@),
{
    lemma_has_status(reply, status, body@);
}

/// A handler's own response is sent as it is, and one that has none is answered with 500.
pub proof fn law_failed_handlers_are_answered(handled: Handled, reply: Reply)
    requires
        call_ensures(do_response, (handled,), reply),
    ensures
        handled matches Handled::Answered(own) ==> reply == own,
        !(handled is Answered) ==> is_bare(reply, 500),
{
    if !(handled is Answered) {
        lemma_has_status(reply, 500, crate::reply::BodyView::Empty);
    }
}

/// Options that are given are kept, and each of the others has its documented default.
pub proof fn law_options_have_defaults(
    max_sessions: Option<usize>,
    session_timeout: Option<u32>,
    allow_plaintext: bool,
    proxy_protocol: bool,
    client_ip_header: Option<String>,
    opts: Opts,
)
    requires
        call_ensures(
            resolve,
            (
                max_sessions,
                session_timeout,
                allow_plaintext,
                proxy_protocol,
                client_ip_header,
            ),
            opts,
        ),
    ensures
        max_sessions matches Some(count) ==> opts.0 == count,
        max_sessions is None ==> opts.0 == 100,
        session_timeout matches Some(seconds) ==> opts.1 == seconds,
        session_timeout is None ==> opts.1 == 900,
        opts.2 == allow_plaintext,
        opts.3 == proxy_protocol,
        client_ip_header matches Some(name) ==> opts.4@ == name@,
        client_ip_header is None ==> opts.4@ == "x-forwarded-for"@,
{
}

/// The log goes to standard error exactly if that is asked for, and else where it is asked for.
pub proof fn law_log_goes_where_asked(log_path: &str, dest: LogDest)
    requires
        call_ensures(log_destination, (log_path,), dest),
    ensures
        dest is Stderr <==> log_path@ == "stderr"@,
        dest matches LogDest::Directory(path) ==> path@ == log_path@,
{
}

/// The limits are the documented ones: 100 sessions and 900 seconds of inactivity unless told
/// otherwise, identifiers of sixteen bytes in thirty-two digits, bodies of one mebibyte, ten
/// seconds for a `/recv`, sixty for a request, and a look every second.
pub proof fn law_limits_are_documented()
    ensures
        DEFAULT_MAX_SESSIONS == 100,
        DEFAULT_SESSION_TIMEOUT == 900,
        ID_SIZE_BINARY == 16,
        ID_SIZE_ASCII_HEX == 32,
        BODY_SIZE_LIMIT == 1024 * 1024,
        LONG_POLL_TIMEOUT == 10,
        HTTP_TIMEOUT == 60,
        ONE_SECOND == 1,
{
}

} // verus!
