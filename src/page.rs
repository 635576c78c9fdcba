use vstd::prelude::*;
use vstd::string::*;

verus! {

/// The site's own description of itself.
pub struct SiteConfig {
    pub site_name: String,
    /// The description in its source (markdown) form.
    pub description: String,
}

/// Build identity stamped on every page.
pub struct BuildInfo {
    pub sha256: String,
    pub version: String,
    pub git_commit: String,
}

/// One served directory: the URL path it is mounted at, the directory on
/// disk, and the label of its footer link (empty for no link).
pub struct ServeDirEntry {
    pub path: String,
    pub dir: String,
    pub link: String,
}

/// Paging parameters of a listing.
#[derive(Debug, Clone, Copy, PartialEq, Eq)]
pub struct ParamsPage {
    pub anchor: usize,
    pub n: usize,
    pub is_desc: bool,
}

/// Metadata common to every rendered page. `C` is the caller identity.
#[derive(Debug, Clone)]
pub struct PageData<C> {
    pub title: String,
    pub site_name: String,
    pub site_description: String,
    pub claim: Option<C>,
    pub has_unread: bool,
    pub sha256: String,
    pub version: String,
    pub git_commit: String,
    pub footer_links: Vec<(String, String)>,
}

/// The footer links of a list of served directories: `(path, label)` of each
/// entry whose label is not empty, in the order given.
pub open spec fn footer_links_of(entries: Seq<ServeDirEntry>) -> Seq<(Seq<char>, Seq<char>)>
    decreases entries.len(),
{
    if entries.len() == 0 {
        Seq::empty()
    } else {
        let rest = footer_links_of(entries.drop_last());
        let e = entries.last();
        if e.link@.len() > 0 {
            rest.push((e.path@, e.link@))
        } else {
            rest
        }
    }
}

pub open spec fn link_view(l: (String, String)) -> (Seq<char>, Seq<char>) {
    (l.0@, l.1@)
}

impl<C> PageData<C> {
    pub open spec fn footer_view(&self) -> Seq<(Seq<char>, Seq<char>)> {
        self.footer_links@.map_values(|l: (String, String)| link_view(l))
    }

    /// Assembles the metadata of a page. `site_description` is the site's
    /// description already rendered to HTML; the footer links come from the
    /// served directories that carry a label.
    pub fn new(
        title: &str,
        site_config: &SiteConfig,
        claim: Option<C>,
        has_unread: bool,
        site_description: String,
        build: &BuildInfo,
        serve_dir: &Vec<ServeDirEntry>,
    ) -> (r: Self)
        ensures
            r.title@ == title@,
            r.site_name@ == site_config.site_name@,
            r.site_description@ == site_description@,
            r.claim == claim,
            r.has_unread == has_unread,
            r.sha256@ == build.sha256@,
            r.version@ == build.version@,
            r.git_commit@ == build.git_commit@,
            r.footer_view() == footer_links_of(serve_dir@),
    {
        let mut footer_links: Vec<(String, String)> = Vec::new();
        let n = serve_dir.len();
        let mut i: usize = 0;
        while i < n
            invariant
                n == serve_dir@.len(),
                i <= n,
                footer_links@.map_values(|l: (String, String)| link_view(l))
                    == footer_links_of(serve_dir@.subrange(0, i as int)),
            decreases n - i,
        {
            let e = &serve_dir[i];
            proof {
                assert(serve_dir@.subrange(0, i + 1).drop_last() =~= serve_dir@.subrange(0, i as int));
            }
            if !e.link.as_str().is_empty() {
                footer_links.push((e.path.clone(), e.link.clone()));
            }
            assert(footer_links@.map_values(|l: (String, String)| link_view(l))
                =~= footer_links_of(serve_dir@.subrange(0, i + 1)));
            i = i + 1;
        }
        assert(serve_dir@.subrange(0, n as int) =~= serve_dir@);
        PageData {
            title: String::from_str(title),
            site_name: site_config.site_name.clone(),
            site_description,
            claim,
            has_unread,
            sha256: build.sha256.clone(),
            version: build.version.clone(),
            git_commit: build.git_commit.clone(),
            footer_links,
        }
    }
}

} // verus!
