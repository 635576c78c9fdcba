use vstd::prelude::*;
use vstd::string::*;
use crate::reply::{redirect_to, sign_in_path, Reply, ReplyView};

verus! {

/// The reply for a path under a served directory that names no file: a
/// redirect to the sign-in page, never a plain "not found".
pub fn missing_asset_reply() -> (r: Reply)
    ensures
        r@ == (ReplyView::Redirect { location: sign_in_path() }),
{
    redirect_to("/signin")
}

pub open spec fn asset_error_view(error: Seq<char>) -> ReplyView {
    ReplyView::Page {
        status: 500,
        headers: seq![("content-type"@, "text/plain; charset=utf-8"@)],
        body: "Unhandled internal error: "@ + error,
    }
}

/// The reply for a file that exists but could not be read: 500, with the
/// error's text in a plain-text body.
pub fn asset_error_reply(error: &str) -> (r: Reply)
    ensures
        r@ == asset_error_view(error@),
{
    let mut headers: Vec<(String, String)> = Vec::new();
    headers.push((String::from_str("content-type"), String::from_str("text/plain; charset=utf-8")));
    let body = String::from_str("Unhandled internal error: ").concat(error);
    let r = Reply::Page { status: 500, headers, body };
    assert(r@.view_headers() =~= seq![("content-type"@, "text/plain; charset=utf-8"@)]);
    r
}

/// The site's stylesheet: the base stylesheet, a newline, then the site's own.
pub open spec fn stylesheet_of(base: Seq<char>, main: Seq<char>) -> Seq<char> {
    base + seq!['\n'] + main
}

/// Joins the two stylesheets into the one that is served.
pub fn stylesheet(base: &str, main: &str) -> (r: String)
    ensures
        r@ == stylesheet_of(base@, main@),
{
    let mut css = String::from_str(base);
    css.append("\n");
    proof {
        reveal_strlit("\n");
    }
    css.append(main);
    assert(css@ =~= stylesheet_of(base@, main@));
    css
}

pub open spec fn style_headers() -> Seq<(Seq<char>, Seq<char>)> {
    seq![
        ("content-type"@, "text/css"@),
        ("cache-control"@, "public, max-age=1209600, s-maxage=86400"@),
    ]
}

/// The reply of the style endpoint for a stylesheet `css`.
pub open spec fn style_view(css: Seq<char>) -> ReplyView {
    ReplyView::Page { status: 200, headers: style_headers(), body: css }
}

/// Serves the stylesheet: 200, `text/css`, cacheable for two weeks by the
/// browser and one day by shared caches.
pub fn style(css: &str) -> (r: Reply)
    ensures
        r@ == style_view(css@),
{
    let mut headers: Vec<(String, String)> = Vec::new();
    headers.push((String::from_str("content-type"), String::from_str("text/css")));
    headers.push(
        (
            String::from_str("cache-control"),
            String::from_str("public, max-age=1209600, s-maxage=86400"),
        ),
    );
    let r = Reply::Page { status: 200, headers, body: String::from_str(css) };
    assert(r@.view_headers() =~= style_headers());
    r
}

/// Two replies of the style endpoint over the same cached stylesheet are the
/// same, body and headers alike.
pub proof fn style_is_stable(first: Reply, second: Reply, css: Seq<char>)
    requires
        first@ == style_view(css),
        second@ == style_view(css),
    ensures
        first@ == second@,
{
}

} // verus!
