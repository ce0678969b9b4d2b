//! Responses of the server.

use vstd::prelude::*;

verus! {

/// The body of a response.
pub enum Body {
    Empty,
    Bytes(Vec<u8>),
    Text(String),
}

/// A response: status code, headers and body.
pub struct Reply {
    pub status: u16,
    pub headers: Vec<(String, String)>,
    pub body: Body,
}

/// What the body of a response holds.
#[verifier::ext_equal]
pub enum BodyView {
    Empty,
    Bytes(Seq<u8>),
    Text(Seq<char>),
}

/// What a response says.
#[verifier::ext_equal]
pub struct ReplyView {
    pub status: u16,
    pub headers: Seq<(Seq<char>, Seq<char>)>,
    pub body: BodyView,
}

impl View for Body {
    type V = BodyView;

    open spec fn view(&self) -> BodyView {
        match self {
            Body::Empty => BodyView::Empty,
            Body::Bytes(bytes) => BodyView::Bytes(bytes@),
            Body::Text(text) => BodyView::Text(text@),
        }
    }
}

impl View for Reply {
    type V = ReplyView;

    open spec fn view(&self) -> ReplyView {
        ReplyView {
            status: self.status,
            headers: self.headers@.map_values(|h: (String, String)| (h.0@, h.1@)),
            body: self.body@,
        }
    }
}

impl ReplyView {
    /// Whether the response forbids caches on the way to keep it.
    pub open spec fn is_uncached(self) -> bool {
        self.headers.contains(("Cache-Control"@, "no-cache"@))
    }
}

/// The response with a given status and body. Every response forbids caching, as the server is
/// meant to stand behind caching proxies.
pub open spec fn response(status: u16, body: BodyView) -> ReplyView {
    ReplyView { status, headers: seq![("Cache-Control"@, "no-cache"@)], body }
}

/// Makes the response with a given status and body.
pub fn make_response(status: u16, body: Body) -> (reply: Reply)
    ensures
        reply@ == response(status, body@),
        reply@.is_uncached(),
{
    let header = (String::from_str("Cache-Control"), String::from_str("no-cache"));
    let reply = Reply { status, headers: vec![header], body };
    proof {
        assert(reply@.headers =~= seq![("Cache-Control"@, "no-cache"@)]);
        assert(reply@.headers[0] == ("Cache-Control"@, "no-cache"@));
    }
    reply
}

/// How a request handler ended.
pub enum Handled {
    /// It made a response.
    Answered(Reply),
    /// It returned an error.
    Failed,
    /// It did not run to its end.
    Aborted,
}

/// Gives the response to send for a handler that ended: its own one, or 500 where it has none.
pub fn do_response(handled: Handled) -> (reply: Reply)
    ensures
        reply@ == match handled {
            Handled::Answered(own) => own@,
            _ => response(500, BodyView::Empty),
        },
        handled matches Handled::Answered(own) ==> reply == own,
{
    match handled {
        Handled::Answered(own) => own,
        Handled::Failed => make_response(500, Body::Empty),
        Handled::Aborted => make_response(500, Body::Empty),
    }
}

/// Every response of the server forbids caching.
pub proof fn law_every_response_is_uncached(status: u16, body: BodyView)
    ensures
        response(status, body).is_uncached(),
{
    assert(response(status, body).headers[0] == ("Cache-Control"@, "no-cache"@));
}

} // verus!
