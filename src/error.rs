use vstd::prelude::*;
use vstd::string::*;
use crate::page::{footer_links_of, BuildInfo, PageData, ServeDirEntry, SiteConfig};
use crate::reply::{redirect_to, result_view, sign_in_path, Reply, ReplyView};

verus! {

/// One rule that a field of a submitted form broke.
#[derive(Debug, Clone, PartialEq, Eq)]
pub struct FieldViolation {
    pub field: String,
    pub code: String,
}

/// Every way in which handling a request can fail.
#[derive(Debug, Clone, PartialEq, Eq)]
pub enum AppError {
    CaptchaError,
    NameExists,
    InnCreateLimit,
    UsernameInvalid,
    WrongPassword,
    ImageError(String),
    Locked,
    Hidden,
    ReadOnly,
    ValidationError(Vec<FieldViolation>),
    NoJoinedInn,
    AxumFormRejection(String),
    NotFound,
    WriteInterval,
    NonLogin,
    Unauthorized,
    Banned,
    Internal(String),
}

/// The status code of each kind of error; `None` for the one kind that is
/// answered with a redirect to the sign-in page instead.
pub open spec fn status_of(e: AppError) -> Option<u16> {
    match e {
        AppError::CaptchaError
        | AppError::NameExists
        | AppError::InnCreateLimit
        | AppError::UsernameInvalid
        | AppError::WrongPassword
        | AppError::ImageError(_)
        | AppError::Locked
        | AppError::Hidden
        | AppError::ReadOnly
        | AppError::ValidationError(_)
        | AppError::NoJoinedInn
        | AppError::AxumFormRejection(_) => Some(400),
        AppError::NotFound => Some(404),
        AppError::WriteInterval => Some(429),
        AppError::NonLogin => None,
        AppError::Unauthorized => Some(401),
        AppError::Banned => Some(403),
        AppError::Internal(_) => Some(500),
    }
}

/// The status line that `reqwest::StatusCode` displays for a code: the code,
/// a space, and its canonical reason.
pub uninterp spec fn status_line_of(code: u16) -> Seq<char>;

/// Relies on reqwest::StatusCode (http's `StatusCode`): `from_u16` accepts
/// every code from 100 to 999, and its `Display` writes the status line.
#[verifier::external_body]
fn status_line(code: u16) -> (r: String)
    requires
        100 <= code <= 999,
    ensures
        r@ == status_line_of(code),
{
    match reqwest::StatusCode::from_u16(code) {
        Ok(s) => s.to_string(),
        Err(e) => e.to_string(),
    }
}

pub open spec fn violation_text(v: FieldViolation) -> Seq<char> {
    v.field@ + ": "@ + v.code@
}

/// The violations of a form, each as `field: code`, joined by `; `.
pub open spec fn violations_text(vs: Seq<FieldViolation>) -> Seq<char>
    decreases vs.len(),
{
    if vs.len() == 0 {
        Seq::empty()
    } else if vs.len() == 1 {
        violation_text(vs[0])
    } else {
        violations_text(vs.drop_last()) + "; "@ + violation_text(vs.last())
    }
}

/// The text shown to the user for each kind of error.
pub open spec fn message_of(e: AppError) -> Seq<char> {
    match e {
        AppError::CaptchaError => "Captcha error"@,
        AppError::NameExists => "Name already exists"@,
        AppError::InnCreateLimit => "Inn creation limit reached"@,
        AppError::UsernameInvalid => "Invalid username"@,
        AppError::WrongPassword => "Wrong password"@,
        AppError::ImageError(s) => "Image error: "@ + s@,
        AppError::Locked => "Locked"@,
        AppError::Hidden => "Hidden"@,
        AppError::ReadOnly => "Read only"@,
        AppError::ValidationError(vs) => "Validation error: "@ + violations_text(vs@),
        AppError::NoJoinedInn => "You have not joined any inn"@,
        AppError::AxumFormRejection(s) => "Form rejection: "@ + s@,
        AppError::NotFound => "Not found"@,
        AppError::WriteInterval => "Writing too often, please wait"@,
        AppError::NonLogin => "Not signed in"@,
        AppError::Unauthorized => "Unauthorized"@,
        AppError::Banned => "Banned"@,
        AppError::Internal(s) => "Internal error: "@ + s@,
    }
}

/// Everything an error page shows.
pub struct ErrorPage<C> {
    pub page_data: PageData<C>,
    pub status: String,
    pub error: String,
}

/// `page` is the error page of `e`: titled "Error", for the default site,
/// with no caller and nothing unread, showing the status line and the
/// error's text.
pub open spec fn is_error_page_of<C>(
    page: ErrorPage<C>,
    e: AppError,
    build: BuildInfo,
    serve_dir: Seq<ServeDirEntry>,
) -> bool {
    &&& status_of(e) is Some
    &&& page.status@ == status_line_of(status_of(e)->Some_0)
    &&& page.error@ == message_of(e)
    &&& page.page_data.title@ == "Error"@
    &&& page.page_data.site_name@ == Seq::<char>::empty()
    &&& page.page_data.site_description@ == Seq::<char>::empty()
    &&& page.page_data.claim is None
    &&& !page.page_data.has_unread
    &&& page.page_data.sha256@ == build.sha256@
    &&& page.page_data.version@ == build.version@
    &&& page.page_data.git_commit@ == build.git_commit@
    &&& page.page_data.footer_view() == footer_links_of(serve_dir)
}

/// The reply carrying a rendered error page: the error's status with the
/// rendered HTML, or, where rendering failed, 500 with the failure's text.
pub open spec fn error_page_reply(status: u16, rendered: Result<Seq<char>, Seq<char>>) -> ReplyView {
    match rendered {
        Ok(body) => ReplyView::Page { status, headers: seq![("content-type"@, "html"@)], body },
        Err(text) => ReplyView::Page { status: 500, headers: Seq::empty(), body: text },
    }
}

/// Builds the reply of an error page from its status and the outcome of
/// rendering it.
pub fn error_reply(status: u16, rendered: Result<String, String>) -> (r: Reply)
    ensures
        r@ == error_page_reply(status, result_view(rendered)),
{
    match rendered {
        Ok(body) => {
            let mut headers: Vec<(String, String)> = Vec::new();
            headers.push((String::from_str("content-type"), String::from_str("html")));
            let r = Reply::Page { status, headers, body };
            assert(r@.view_headers() =~= seq![("content-type"@, "html"@)]);
            r
        },
        Err(text) => {
            let r = Reply::Page { status: 500, headers: Vec::new(), body: text };
            assert(r@.view_headers() =~= Seq::<(Seq<char>, Seq<char>)>::empty());
            r
        },
    }
}

impl AppError {
    /// The status code of this error, or `None` where it is answered with a
    /// redirect to sign in.
    pub fn status_code(&self) -> (r: Option<u16>)
        ensures
            r == status_of(*self),
    {
        match self {
            AppError::CaptchaError
            | AppError::NameExists
            | AppError::InnCreateLimit
            | AppError::UsernameInvalid
            | AppError::WrongPassword
            | AppError::ImageError(_)
            | AppError::Locked
            | AppError::Hidden
            | AppError::ReadOnly
            | AppError::ValidationError(_)
            | AppError::NoJoinedInn
            | AppError::AxumFormRejection(_) => Some(400),
            AppError::NotFound => Some(404),
            AppError::WriteInterval => Some(429),
            AppError::NonLogin => None,
            AppError::Unauthorized => Some(401),
            AppError::Banned => Some(403),
            AppError::Internal(_) => Some(500),
        }
    }
}

/// Every kind of error has exactly one outcome: the kind that means "not
/// signed in" is the only one without a status code, and every other kind
/// has one of 400, 401, 403, 404, 429 and 500.
pub proof fn status_table_is_total(e: AppError)
    ensures
        status_of(e) is None <==> e is NonLogin,
        status_of(e) matches Some(code) ==> code == 400 || code == 401 || code == 403 || code
            == 404 || code == 429 || code == 500,
{
}

/// The violations of a form as one text, as `violations_text` says.
fn describe_violations(vs: &Vec<FieldViolation>) -> (r: String)
    ensures
        r@ == violations_text(vs@),
{
    let mut out = String::new();
    let n = vs.len();
    let mut i: usize = 0;
    while i < n
        invariant
            n == vs@.len(),
            i <= n,
            out@ == violations_text(vs@.subrange(0, i as int)),
        decreases n - i,
    {
        let v = &vs[i];
        proof {
            assert(vs@.subrange(0, i + 1).drop_last() =~= vs@.subrange(0, i as int));
            assert(vs@.subrange(0, i + 1).last() == vs@[i as int]);
        }
        if i > 0 {
            out.append("; ");
        }
        out.append(v.field.as_str());
        out.append(": ");
        out.append(v.code.as_str());
        assert(out@ =~= violations_text(vs@.subrange(0, i + 1)));
        i = i + 1;
    }
    assert(vs@.subrange(0, n as int) =~= vs@);
    out
}

impl AppError {
    /// The text shown to the user for this error.
    pub fn message(&self) -> (r: String)
        ensures
            r@ == message_of(*self),
    {
        match self {
            AppError::CaptchaError => String::from_str("Captcha error"),
            AppError::NameExists => String::from_str("Name already exists"),
            AppError::InnCreateLimit => String::from_str("Inn creation limit reached"),
            AppError::UsernameInvalid => String::from_str("Invalid username"),
            AppError::WrongPassword => String::from_str("Wrong password"),
            AppError::ImageError(s) => String::from_str("Image error: ").concat(s.as_str()),
            AppError::Locked => String::from_str("Locked"),
            AppError::Hidden => String::from_str("Hidden"),
            AppError::ReadOnly => String::from_str("Read only"),
            AppError::ValidationError(vs) => {
                let text = describe_violations(vs);
                String::from_str("Validation error: ").concat(text.as_str())
            },
            AppError::NoJoinedInn => String::from_str("You have not joined any inn"),
            AppError::AxumFormRejection(s) => String::from_str("Form rejection: ").concat(
                s.as_str(),
            ),
            AppError::NotFound => String::from_str("Not found"),
            AppError::WriteInterval => String::from_str("Writing too often, please wait"),
            AppError::NonLogin => String::from_str("Not signed in"),
            AppError::Unauthorized => String::from_str("Unauthorized"),
            AppError::Banned => String::from_str("Banned"),
            AppError::Internal(s) => String::from_str("Internal error: ").concat(s.as_str()),
        }
    }

    /// The error page of this error, where it has one (every kind but the
    /// one answered with a redirect).
    pub fn error_page<C>(&self, build: &BuildInfo, serve_dir: &Vec<ServeDirEntry>) -> (r: Option<
        ErrorPage<C>,
    >)
        ensures
            r is None <==> status_of(*self) is None,
            r matches Some(page) ==> is_error_page_of(page, *self, *build, serve_dir@),
    {
        match self.status_code() {
            None => None,
            Some(code) => {
                let site_config = SiteConfig { site_name: String::new(), description: String::new() };
                let page_data = PageData::new(
                    "Error",
                    &site_config,
                    None,
                    false,
                    String::new(),
                    build,
                    serve_dir,
                );
                Some(ErrorPage { page_data, status: status_line(code), error: self.message() })
            },
        }
    }

    /// Presents this error as a reply. The kind that means "not signed in"
    /// is a redirect to the sign-in page and is never rendered. Every other
    /// kind has its error page handed to `render`; a rendered page goes out
    /// with the error's status, a failed render as a 500 with the failure's
    /// text.
    pub fn into_response<C, F>(self, build: &BuildInfo, serve_dir: &Vec<ServeDirEntry>, render: F) -> (r: Reply)
        where
            F: FnOnce(&ErrorPage<C>) -> Result<String, String>,
        requires
            forall|p: &ErrorPage<C>| call_requires(render, (p,)),
        ensures
            self is NonLogin ==> r@ == (ReplyView::Redirect { location: sign_in_path() }),
            status_of(self) matches Some(code) ==> exists|page: ErrorPage<C>, out: Result<String, String>|
                is_error_page_of(page, self, *build, serve_dir@)
                && call_ensures(render, (&page,), out)
                && r@ == error_page_reply(code, result_view(out)),
    {
        match self.error_page::<C>(build, serve_dir) {
            None => redirect_to("/signin"),
            Some(page) => {
                let code = self.status_code().unwrap();
                let out = render(&page);
                error_reply(code, out)
            },
        }
    }
}

/// The reply to a request that matched no route: the not-found error page.
pub fn handler_404<C, F>(build: &BuildInfo, serve_dir: &Vec<ServeDirEntry>, render: F) -> (r: Reply)
    where
        F: FnOnce(&ErrorPage<C>) -> Result<String, String>,
    requires
        forall|p: &ErrorPage<C>| call_requires(render, (p,)),
    ensures
        exists|page: ErrorPage<C>, out: Result<String, String>|
            is_error_page_of(page, AppError::NotFound, *build, serve_dir@)
            && call_ensures(render, (&page,), out)
            && r@ == error_page_reply(404, result_view(out)),
{
    AppError::NotFound.into_response(build, serve_dir, render)
}

} // verus!
