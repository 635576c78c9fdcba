use meta_handler::assets::{asset_error_reply, missing_asset_reply, style, stylesheet};
use meta_handler::error::{handler_404, AppError, ErrorPage, FieldViolation};
use meta_handler::page::{BuildInfo, PageData, ParamsPage, ServeDirEntry, SiteConfig};
use meta_handler::reply::{home, into_response, Reply};

fn build() -> BuildInfo {
    BuildInfo {
        sha256: "abc123".to_string(),
        version: "1.2.3".to_string(),
        git_commit: "deadbeef".to_string(),
    }
}

fn dirs() -> Vec<ServeDirEntry> {
    vec![
        ServeDirEntry {
            path: "/static/upload".to_string(),
            dir: "data/upload".to_string(),
            link: String::new(),
        },
        ServeDirEntry {
            path: "/static/docs".to_string(),
            dir: "data/docs".to_string(),
            link: "Docs".to_string(),
        },
    ]
}

fn all_kinds() -> Vec<(AppError, Option<u16>)> {
    vec![
        (AppError::CaptchaError, Some(400)),
        (AppError::NameExists, Some(400)),
        (AppError::InnCreateLimit, Some(400)),
        (AppError::UsernameInvalid, Some(400)),
        (AppError::WrongPassword, Some(400)),
        (AppError::ImageError("bad png".to_string()), Some(400)),
        (AppError::Locked, Some(400)),
        (AppError::Hidden, Some(400)),
        (AppError::ReadOnly, Some(400)),
        (AppError::ValidationError(vec![]), Some(400)),
        (AppError::NoJoinedInn, Some(400)),
        (AppError::AxumFormRejection("missing field".to_string()), Some(400)),
        (AppError::NotFound, Some(404)),
        (AppError::WriteInterval, Some(429)),
        (AppError::NonLogin, None),
        (AppError::Unauthorized, Some(401)),
        (AppError::Banned, Some(403)),
        (AppError::Internal("disk".to_string()), Some(500)),
    ]
}

fn html(status: u16, body: &str) -> Reply {
    Reply::Page {
        status,
        headers: vec![("content-type".to_string(), "html".to_string())],
        body: body.to_string(),
    }
}

#[test]
fn status_codes_follow_the_table() {
    for (e, code) in all_kinds() {
        assert_eq!(e.status_code(), code, "{:?}", e);
    }
}

#[test]
fn every_rendered_error_carries_its_status() {
    for (e, code) in all_kinds() {
        if let Some(code) = code {
            let r = e.into_response(&build(), &dirs(), |_p: &ErrorPage<()>| Ok("<p>page</p>".to_string()));
            assert_eq!(r, html(code, "<p>page</p>"));
        }
    }
}

#[test]
fn not_signed_in_redirects_without_rendering() {
    let r = AppError::NonLogin.into_response(&build(), &dirs(), |_p: &ErrorPage<()>| -> Result<String, String> {
        panic!("the sign-in redirect must not render a page")
    });
    assert_eq!(r, Reply::Redirect { location: "/signin".to_string() });
}

#[test]
fn error_page_shows_status_line_and_message() {
    let r = AppError::WriteInterval.into_response(&build(), &dirs(), |p: &ErrorPage<u32>| {
        assert_eq!(p.status, "429 Too Many Requests");
        assert_eq!(p.error, "Writing too often, please wait");
        assert_eq!(p.page_data.title, "Error");
        assert_eq!(p.page_data.site_name, "");
        assert!(p.page_data.claim.is_none());
        assert!(!p.page_data.has_unread);
        assert_eq!(p.page_data.version, "1.2.3");
        assert_eq!(
            p.page_data.footer_links,
            vec![("/static/docs".to_string(), "Docs".to_string())]
        );
        Ok(format!("{} / {}", p.status, p.error))
    });
    assert_eq!(r, html(429, "429 Too Many Requests / Writing too often, please wait"));
}

#[test]
fn status_lines_of_each_code() {
    let cases = vec![
        (AppError::Banned, "403 Forbidden"),
        (AppError::Unauthorized, "401 Unauthorized"),
        (AppError::NotFound, "404 Not Found"),
        (AppError::Locked, "400 Bad Request"),
        (AppError::Internal("x".to_string()), "500 Internal Server Error"),
    ];
    for (e, line) in cases {
        let page = e.error_page::<()>(&build(), &dirs()).unwrap();
        assert_eq!(page.status, line);
    }
    assert!(AppError::NonLogin.error_page::<()>(&build(), &dirs()).is_none());
}

#[test]
fn failing_renderer_gives_plain_500() {
    let r = AppError::Banned.into_response(&build(), &dirs(), |_p: &ErrorPage<()>| {
        Err("template error: missing variable `x`".to_string())
    });
    assert_eq!(
        r,
        Reply::Page {
            status: 500,
            headers: vec![],
            body: "template error: missing variable `x`".to_string(),
        }
    );
}

#[test]
fn render_outcome_to_reply() {
    let ok = into_response(Ok("<html></html>".to_string()), "html");
    assert_eq!(ok, Reply::Page {
        status: 200,
        headers: vec![("content-type".to_string(), "html".to_string())],
        body: "<html></html>".to_string(),
    });
    let failed = into_response(Err("render failed: io".to_string()), "html");
    assert_eq!(failed, Reply::Page { status: 500, headers: vec![], body: "render failed: io".to_string() });
}

#[test]
fn unmatched_route_is_not_found_page() {
    let r = handler_404(&build(), &dirs(), |p: &ErrorPage<()>| Ok(p.error.clone()));
    assert_eq!(r, html(404, "Not found"));
}

#[test]
fn messages_of_errors() {
    assert_eq!(AppError::ImageError("bad png".to_string()).message(), "Image error: bad png");
    assert_eq!(AppError::AxumFormRejection("no body".to_string()).message(), "Form rejection: no body");
    let v = AppError::ValidationError(vec![
        FieldViolation { field: "name".to_string(), code: "length".to_string() },
        FieldViolation { field: "mail".to_string(), code: "email".to_string() },
    ]);
    assert_eq!(v.message(), "Validation error: name: length; mail: email");
    assert_eq!(AppError::ValidationError(vec![]).message(), "Validation error: ");
}

#[test]
fn home_redirects_to_first_listing() {
    assert_eq!(home(), Reply::Redirect { location: "/inn/0".to_string() });
}

#[test]
fn missing_asset_redirects_to_sign_in() {
    assert_eq!(missing_asset_reply(), Reply::Redirect { location: "/signin".to_string() });
}

#[test]
fn unreadable_asset_is_500_with_error_text() {
    assert_eq!(
        asset_error_reply("permission denied"),
        Reply::Page {
            status: 500,
            headers: vec![("content-type".to_string(), "text/plain; charset=utf-8".to_string())],
            body: "Unhandled internal error: permission denied".to_string(),
        }
    );
}

#[test]
fn stylesheet_joins_with_newline() {
    assert_eq!(stylesheet("a{}", "b{}"), "a{}\nb{}");
    assert_eq!(stylesheet("", ""), "\n");
}

#[test]
fn style_twice_is_identical() {
    let css = stylesheet(".x{color:red}", ".y{margin:0}");
    let first = style(&css);
    let second = style(&css);
    assert_eq!(first, second);
    assert_eq!(
        first,
        Reply::Page {
            status: 200,
            headers: vec![
                ("content-type".to_string(), "text/css".to_string()),
                ("cache-control".to_string(), "public, max-age=1209600, s-maxage=86400".to_string()),
            ],
            body: ".x{color:red}\n.y{margin:0}".to_string(),
        }
    );
}

#[test]
fn footer_keeps_only_labelled_dirs_in_order() {
    let site = SiteConfig { site_name: "Freedit".to_string(), description: "**hi**".to_string() };
    let mut entries = dirs();
    entries.push(ServeDirEntry {
        path: "/static/about".to_string(),
        dir: "data/about".to_string(),
        link: "About".to_string(),
    });
    let p = PageData::new("Home", &site, Some(7u32), true, "<p><b>hi</b></p>".to_string(), &build(), &entries);
    assert_eq!(
        p.footer_links,
        vec![
            ("/static/docs".to_string(), "Docs".to_string()),
            ("/static/about".to_string(), "About".to_string()),
        ]
    );
    assert_eq!(p.title, "Home");
    assert_eq!(p.site_name, "Freedit");
    assert_eq!(p.site_description, "<p><b>hi</b></p>");
    assert_eq!(p.claim, Some(7));
    assert!(p.has_unread);
    assert_eq!(p.sha256, "abc123");
    assert_eq!(p.git_commit, "deadbeef");
}

#[test]
fn footer_of_empty_and_unlabelled_lists() {
    let site = SiteConfig { site_name: String::new(), description: String::new() };
    let none: Vec<ServeDirEntry> = vec![];
    let p = PageData::<()>::new("t", &site, None, false, String::new(), &build(), &none);
    assert!(p.footer_links.is_empty());
    let unlabelled = vec![dirs().remove(0)];
    let q = PageData::<()>::new("t", &site, None, false, String::new(), &build(), &unlabelled);
    assert!(q.footer_links.is_empty());
}

#[test]
fn params_page_holds_its_fields() {
    let p = ParamsPage { anchor: 20, n: 30, is_desc: true };
    let q = p;
    assert_eq!(q, ParamsPage { anchor: 20, n: 30, is_desc: true });
}
