//! Best-effort metadata of linked pages: a favicon for links, a preview for
//! bookmarks.
//!
//! The pages themselves are fetched elsewhere and handed in as text. A page
//! that could not be fetched is `None`, and so is every field that would have
//! come from it: nothing here fails.
//!
//! Reading HTML and URLs is left to the crates `html_meta_scraper` and `url`.
//! Each call into them stands in a private function below whose contract is
//! taken on trust; it gives the call's result a name and says nothing of what
//! the result is.

use vstd::prelude::*;
use vstd::string::*;
use crate::views::opt_view;

verus! {

/// The content of the first Open Graph title tag of `html`, as
/// `MetaScraper::extract_og_title` finds it.
pub uninterp spec fn scraped_og_title(html: Seq<char>) -> Option<Seq<char>>;

/// The text of the `<title>` element of `html`, as
/// `MetaScraper::extract_title` finds it.
pub uninterp spec fn scraped_title(html: Seq<char>) -> Option<Seq<char>>;

/// The content of the first Open Graph description tag of `html`, as
/// `MetaScraper::extract_og_description` finds it.
pub uninterp spec fn scraped_og_description(html: Seq<char>) -> Option<Seq<char>>;

/// The content of the description meta tag of `html`, as
/// `MetaScraper::extract_description` finds it.
pub uninterp spec fn scraped_description(html: Seq<char>) -> Option<Seq<char>>;

/// The image of the page `html`, as `MetaScraper::image` finds it.
pub uninterp spec fn scraped_image(html: Seq<char>) -> Option<Seq<char>>;

/// The reference to the icon of the page `html`, as `MetaScraper::favicon`
/// finds it. It may be relative.
pub uninterp spec fn scraped_favicon(html: Seq<char>) -> Option<Seq<char>>;

/// The scheme of `url`, where `Url::parse` accepts `url`.
pub uninterp spec fn url_scheme(url: Seq<char>) -> Option<Seq<char>>;

/// The host of `url` as text, be it a domain name or an address, where
/// `Url::parse` accepts `url` and `Url::host_str` finds a host.
pub uninterp spec fn url_host(url: Seq<char>) -> Option<Seq<char>>;

/// `reference` resolved against `base` by `Url::join`, where `Url::parse`
/// accepts `base` and the join succeeds.
pub uninterp spec fn url_joined(base: Seq<char>, reference: Seq<char>) -> Option<Seq<char>>;

/// Calls `MetaScraper::extract_og_title` on the parsed `html`: the content
/// attribute of the first `og:title` meta tag, unless it is empty.
#[verifier::external_body]
fn og_title(html: &str) -> (r: Option<String>)
    ensures
        opt_view(r) == scraped_og_title(html@),
{
    html_meta_scraper::MetaScraper::new(html).extract_og_title()
}

/// Calls `MetaScraper::extract_title` on the parsed `html`: the trimmed text
/// of the first `<title>` element, unless it is empty.
#[verifier::external_body]
fn native_title(html: &str) -> (r: Option<String>)
    ensures
        opt_view(r) == scraped_title(html@),
{
    html_meta_scraper::MetaScraper::new(html).extract_title()
}

/// Calls `MetaScraper::extract_og_description` on the parsed `html`: the
/// content attribute of the first `og:description` meta tag, unless it is
/// empty.
#[verifier::external_body]
fn og_description(html: &str) -> (r: Option<String>)
    ensures
        opt_view(r) == scraped_og_description(html@),
{
    html_meta_scraper::MetaScraper::new(html).extract_og_description()
}

/// Calls `MetaScraper::extract_description` on the parsed `html`: the content
/// attribute of the first `description` meta tag, unless it is empty.
#[verifier::external_body]
fn native_description(html: &str) -> (r: Option<String>)
    ensures
        opt_view(r) == scraped_description(html@),
{
    html_meta_scraper::MetaScraper::new(html).extract_description()
}

/// Calls `MetaScraper::image` on the parsed `html`: the first `og:image`,
/// else the first `twitter:image`.
#[verifier::external_body]
fn page_image(html: &str) -> (r: Option<String>)
    ensures
        opt_view(r) == scraped_image(html@),
{
    html_meta_scraper::MetaScraper::new(html).image()
}

/// Calls `MetaScraper::favicon` on the parsed `html`: the `href` of the first
/// `<link>` whose `rel` holds the token `icon`.
#[verifier::external_body]
fn page_favicon(html: &str) -> (r: Option<String>)
    ensures
        opt_view(r) == scraped_favicon(html@),
{
    html_meta_scraper::MetaScraper::new(html).favicon()
}

/// Calls `Url::scheme` on `url` as `Url::parse` reads it; `None` where
/// `Url::parse` refuses `url`.
#[verifier::external_body]
fn scheme_of(url: &str) -> (r: Option<String>)
    ensures
        opt_view(r) == url_scheme(url@),
{
    match url::Url::parse(url) {
        Ok(parsed) => Some(parsed.scheme().to_owned()),
        Err(_) => None,
    }
}

/// Calls `Url::host_str` on `url` as `Url::parse` reads it: the host as it
/// is written in the URL, a domain name or an IP address; `None` where
/// `Url::parse` refuses `url` and where the URL has no host.
#[verifier::external_body]
fn host_of(url: &str) -> (r: Option<String>)
    ensures
        opt_view(r) == url_host(url@),
{
    match url::Url::parse(url) {
        Ok(parsed) => match parsed.host_str() {
            Some(host) => Some(host.to_owned()),
            None => None,
        },
        Err(_) => None,
    }
}

/// Calls `Url::join` with `reference` on `base` as `Url::parse` reads it, and
/// writes the result out as text; `None` where either call fails.
#[verifier::external_body]
fn join(base: &str, reference: &str) -> (r: Option<String>)
    ensures
        opt_view(r) == url_joined(base@, reference@),
{
    match url::Url::parse(base) {
        Ok(parsed) => match parsed.join(reference) {
            Ok(joined) => Some(joined.to_string()),
            Err(_) => None,
        },
        Err(_) => None,
    }
}

/// Of two readings of one field, the Open Graph one wins; the generic one
/// stands where there is no Open Graph one.
pub open spec fn preferred(
    open_graph: Option<Seq<char>>,
    generic: Option<Seq<char>>,
) -> Option<Seq<char>> {
    match open_graph {
        Some(value) => Some(value),
        None => generic,
    }
}

/// Picks the Open Graph reading of a field over the generic one.
pub fn prefer(open_graph: Option<String>, generic: Option<String>) -> (r: Option<String>)
    ensures
        opt_view(r) == preferred(opt_view(open_graph), opt_view(generic)),
{
    match open_graph {
        Some(value) => Some(value),
        None => generic,
    }
}

/// What a bookmark shows of the page it points at.
#[derive(Debug, PartialEq, Eq)]
pub struct Preview {
    pub title: Option<String>,
    pub description: Option<String>,
    pub image: Option<String>,
}

/// [`Preview`] as a mathematical value.
pub struct PreviewView {
    pub title: Option<Seq<char>>,
    pub description: Option<Seq<char>>,
    pub image: Option<Seq<char>>,
}

impl View for Preview {
    type V = PreviewView;

    open spec fn view(&self) -> PreviewView {
        PreviewView {
            title: opt_view(self.title),
            description: opt_view(self.description),
            image: opt_view(self.image),
        }
    }
}

/// The preview of a page: every field absent where the page could not be
/// fetched; else title and description with the Open Graph tag preferred
/// over the generic one, and the page's image.
///
/// Title and description look at two tags only. `MetaScraper::title` and
/// `MetaScraper::description` would also fall back on the Twitter card tags;
/// that fallback is left out on purpose, so that a page's own title or
/// description stands wherever the page has no Open Graph one.
pub open spec fn preview_of(page: Option<Seq<char>>) -> PreviewView {
    match page {
        None => PreviewView { title: None, description: None, image: None },
        Some(html) => PreviewView {
            title: preferred(scraped_og_title(html), scraped_title(html)),
            description: preferred(scraped_og_description(html), scraped_description(html)),
            image: scraped_image(html),
        },
    }
}

/// Reads the preview of a bookmarked page out of what was fetched for it.
pub fn bookmark_preview(page: &Option<String>) -> (r: Preview)
    ensures
        r@ == preview_of(opt_view(*page)),
{
    match page {
        None => Preview { title: None, description: None, image: None },
        Some(html) => {
            let title = prefer(og_title(html.as_str()), native_title(html.as_str()));
            let description = prefer(
                og_description(html.as_str()),
                native_description(html.as_str()),
            );
            let image = page_image(html.as_str());
            Preview { title, description, image }
        },
    }
}

/// The origin of a page: its scheme and host, without port, path or query.
pub open spec fn origin_of(scheme: Seq<char>, host: Seq<char>) -> Seq<char> {
    scheme + "://"@ + host
}

/// Writes the origin of a page from its scheme and host.
pub fn origin(scheme: &str, host: &str) -> (r: String)
    ensures
        r@ == origin_of(scheme@, host@),
{
    let mut out = String::from_str(scheme);
    out.append("://");
    out.append(host);
    out
}

/// The address of the icon of the page at `url`: absent where the page could
/// not be fetched, where `url` has no scheme and host to resolve against,
/// where the page names no icon, and where the icon's reference cannot be
/// resolved; else that reference, resolved against the origin of `url` (not
/// against its path). The host may be a domain name or an address.
pub open spec fn favicon_of(url: Seq<char>, page: Option<Seq<char>>) -> Option<Seq<char>> {
    match page {
        None => None,
        Some(html) => match (url_scheme(url), url_host(url), scraped_favicon(html)) {
            (Some(scheme), Some(host), Some(reference)) => url_joined(
                origin_of(scheme, host),
                reference,
            ),
            _ => None,
        },
    }
}

/// Finds the icon of the page at `url` in what was fetched for it.
pub fn favicon_by_url(url: &str, page: &Option<String>) -> (r: Option<String>)
    ensures
        opt_view(r) == favicon_of(url@, opt_view(*page)),
{
    match page {
        None => None,
        Some(html) => {
            let scheme = scheme_of(url);
            let host = host_of(url);
            let reference = page_favicon(html.as_str());
            resolve_favicon(scheme, host, reference)
        },
    }
}

/// The icon's address, from what was read of the page's URL and of the page.
/// The reference is resolved against scheme and host alone.
pub fn resolve_favicon(
    scheme: Option<String>,
    host: Option<String>,
    reference: Option<String>,
) -> (r: Option<String>)
    ensures
        opt_view(r) == match (opt_view(scheme), opt_view(host), opt_view(reference)) {
            (Some(s), Some(h), Some(f)) => url_joined(origin_of(s, h), f),
            _ => None,
        },
{
    match (scheme, host, reference) {
        (Some(s), Some(h), Some(f)) => {
            let base = origin(s.as_str(), h.as_str());
            join(base.as_str(), f.as_str())
        },
        _ => None,
    }
}

} // verus!
