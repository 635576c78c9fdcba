use vstd::prelude::*;
use vstd::string::*;

verus! {

/// A finished HTTP response, before it is handed to the server framework.
#[derive(Debug, Clone, PartialEq, Eq)]
pub enum Reply {
    /// A redirect to `location`, with no body.
    Redirect { location: String },
    /// A response with a status code, headers in order, and a body.
    Page { status: u16, headers: Vec<(String, String)>, body: String },
}

/// What a reply is, over plain sequences.
pub enum ReplyView {
    Redirect { location: Seq<char> },
    Page { status: u16, headers: Seq<(Seq<char>, Seq<char>)>, body: Seq<char> },
}

pub open spec fn header_view(h: (String, String)) -> (Seq<char>, Seq<char>) {
    (h.0@, h.1@)
}

impl View for Reply {
    type V = ReplyView;

    open spec fn view(&self) -> ReplyView {
        match self {
            Reply::Redirect { location } => ReplyView::Redirect { location: location@ },
            Reply::Page { status, headers, body } => ReplyView::Page {
                status: *status,
                headers: headers@.map_values(|h: (String, String)| header_view(h)),
                body: body@,
            },
        }
    }
}

pub open spec fn sign_in_path() -> Seq<char> {
    "/signin"@
}

pub open spec fn home_path() -> Seq<char> {
    "/inn/0"@
}

/// The reply for a page whose rendering finished: on success, 200 with the
/// rendered text and `content-type` set to `ext`; on failure, 500 with the
/// failure's text as the body and no headers.
pub open spec fn rendered_reply(rendered: Result<Seq<char>, Seq<char>>, ext: Seq<char>) -> ReplyView {
    match rendered {
        Ok(body) => ReplyView::Page {
            status: 200,
            headers: seq![("content-type"@, ext)],
            body,
        },
        Err(text) => ReplyView::Page { status: 500, headers: Seq::empty(), body: text },
    }
}

pub open spec fn result_view(r: Result<String, String>) -> Result<Seq<char>, Seq<char>> {
    match r {
        Ok(s) => Ok(s@),
        Err(e) => Err(e@),
    }
}

/// Turns the outcome of rendering a page into a reply. A failed render never
/// fails here: its text becomes the body of a 500 reply.
pub fn into_response(rendered: Result<String, String>, ext: &str) -> (r: Reply)
    ensures
        r@ == rendered_reply(result_view(rendered), ext@),
{
    match rendered {
        Ok(body) => {
            let mut headers: Vec<(String, String)> = Vec::new();
            headers.push((String::from_str("content-type"), String::from_str(ext)));
            let r = Reply::Page { status: 200, headers, body };
            assert(r@.view_headers() =~= seq![("content-type"@, ext@)]);
            r
        },
        Err(text) => {
            let r = Reply::Page { status: 500, headers: Vec::new(), body: text };
            assert(r@.view_headers() =~= Seq::<(Seq<char>, Seq<char>)>::empty());
            r
        },
    }
}

impl ReplyView {
    pub open spec fn view_headers(self) -> Seq<(Seq<char>, Seq<char>)> {
        match self {
            ReplyView::Page { headers, .. } => headers,
            ReplyView::Redirect { .. } => Seq::empty(),
        }
    }
}

/// A redirect to `location`.
pub fn redirect_to(location: &str) -> (r: Reply)
    ensures
        r@ == (ReplyView::Redirect { location: location@ }),
{
    Reply::Redirect { location: String::from_str(location) }
}

/// The landing page: a redirect to the first listing.
pub fn home() -> (r: Reply)
    ensures
        r@ == (ReplyView::Redirect { location: home_path() }),
{
    redirect_to("/inn/0")
}

} // verus!
