use vstd::prelude::*;
use crate::collector::{backfill_image, feeds_view, ok_feeds, parsed_views, Cache, HttpCollector};
use crate::error::{Error, ErrorKind, Result};
use crate::models::{opt_view, Feed, FeedKind, FeedView};
use crate::text::{contains, ends_with, has_infix, has_suffix};

verus! {

/// For each element that `selector` matches in an HTML document, in document
/// order, the value of its attribute `attr`, absent where it has none.
pub uninterp spec fn all_attrs_of(html: Seq<char>, selector: Seq<char>, attr: Seq<char>) -> Seq<
    Option<Seq<char>>,
>;

/// The value of `attr` on the first element that `selector` matches in an
/// HTML document; absent where there is no such element or it lacks `attr`.
pub uninterp spec fn first_attr_of(html: Seq<char>, selector: Seq<char>, attr: Seq<char>) -> Option<
    Seq<char>,
>;

/// Whether url parses the text as an absolute URL.
pub uninterp spec fn url_parses(text: Seq<char>) -> bool;

/// The text of `rel` resolved against the URL `base`, as url's Url::join
/// gives it; absent where `base` does not parse or the join fails.
pub uninterp spec fn url_join_of(base: Seq<char>, rel: Seq<char>) -> Option<Seq<char>>;

/// Relies on scraper's Html::parse_document, Selector::parse, Html::select and
/// Element::attr. A selector that does not parse matches nothing.
#[verifier::external_body]
fn select_all_attr(html: &str, selector: &str, attr: &str) -> (r: Vec<Option<String>>)
    ensures
        opt_strings_view(r@) == all_attrs_of(html@, selector@, attr@),
{
    let doc = scraper::Html::parse_document(html);
    match scraper::Selector::parse(selector) {
        Ok(sel) => doc.select(&sel).map(|e| e.value().attr(attr).map(str::to_owned)).collect(),
        Err(_) => Vec::new(),
    }
}

/// Relies on scraper's Html::parse_document, Selector::parse, Html::select and
/// Element::attr. A selector that does not parse matches nothing.
#[verifier::external_body]
pub(crate) fn select_first_attr(html: &str, selector: &str, attr: &str) -> (r: Option<String>)
    ensures
        opt_view(r) == first_attr_of(html@, selector@, attr@),
{
    let doc = scraper::Html::parse_document(html);
    match scraper::Selector::parse(selector) {
        Ok(sel) => doc.select(&sel).next().and_then(|e| e.value().attr(attr)).map(str::to_owned),
        Err(_) => None,
    }
}

/// Relies on url::Url::parse.
#[verifier::external_body]
fn url_is_valid(text: &str) -> (r: bool)
    ensures
        r == url_parses(text@),
{
    url::Url::parse(text).is_ok()
}

/// Relies on url::Url::parse of the base and url::Url::join.
#[verifier::external_body]
fn join_url(base: &str, rel: &str) -> (r: Option<String>)
    ensures
        opt_view(r) == url_join_of(base@, rel@),
{
    url::Url::parse(base).and_then(|b| b.join(rel)).ok().map(|u| u.to_string())
}

pub open spec fn opt_strings_view(v: Seq<Option<String>>) -> Seq<Option<Seq<char>>> {
    v.map_values(|o: Option<String>| opt_view(o))
}

pub open spec fn candidates_view(v: Seq<(String, FeedKind)>) -> Seq<(Seq<char>, FeedKind)> {
    v.map_values(|c: (String, FeedKind)| (c.0@, c.1))
}

/// An href as a candidate URL: an absolute URL as it stands, anything else
/// joined to the page URL; absent where the join fails.
pub open spec fn resolve_href(page: Seq<char>, href: Seq<char>) -> Option<Seq<char>> {
    if url_parses(href) {
        Some(href)
    } else {
        url_join_of(page, href)
    }
}

/// The hrefs that are there and resolve, paired with `kind`, in order.
pub open spec fn resolve_all(page: Seq<char>, hrefs: Seq<Option<Seq<char>>>, kind: FeedKind) -> Seq<
    (Seq<char>, FeedKind),
> {
    hrefs.filter_map(
        |o: Option<Seq<char>>|
            match o {
                Some(h) => match resolve_href(page, h) {
                    Some(u) => Some((u, kind)),
                    None => None,
                },
                None => None,
            },
    )
}

/// The candidates with `o` appended where it is there.
pub open spec fn opt_push(
    cs: Seq<(Seq<char>, FeedKind)>,
    o: Option<Seq<char>>,
    kind: FeedKind,
) -> Seq<(Seq<char>, FeedKind)> {
    match o {
        Some(u) => cs.push((u, kind)),
        None => cs,
    }
}

pub open spec fn rss_link_hrefs(html: Seq<char>) -> Seq<Option<Seq<char>>> {
    all_attrs_of(html, "link[type=\"application/rss+xml\"]"@, "href"@)
}

pub open spec fn atom_link_hrefs(html: Seq<char>) -> Seq<Option<Seq<char>>> {
    all_attrs_of(html, "link[type=\"application/atom+xml\"]"@, "href"@)
}

/// The href of the first WordPress REST discovery link.
pub open spec fn wp_api_href(html: Seq<char>) -> Option<Seq<char>> {
    first_attr_of(html, "link[rel=\"https://api.w.org/\"]"@, "href"@)
}

/// The hrefs of anchors that contain "rss".
pub open spec fn rss_anchor_hrefs(html: Seq<char>) -> Seq<Option<Seq<char>>> {
    rss_only(all_attrs_of(html, "a"@, "href"@))
}

/// The hrefs that are there and contain "rss", in order.
pub open spec fn rss_only(hrefs: Seq<Option<Seq<char>>>) -> Seq<Option<Seq<char>>> {
    hrefs.filter_map(
        |o: Option<Seq<char>>|
            match o {
                Some(h) => if has_infix(h, "rss"@) {
                    Some(Some(h))
                } else {
                    None
                },
                None => None,
            },
    )
}

/// The favicon: the href of the first `link rel="icon"`.
pub open spec fn favicon_of(html: Seq<char>) -> Option<Seq<char>> {
    first_attr_of(html, "link[rel=\"icon\"]"@, "href"@)
}

pub open spec fn ends_in_feed(cs: Seq<(Seq<char>, FeedKind)>) -> bool {
    exists|i: int| 0 <= i < cs.len() && has_suffix(#[trigger] cs[i].0, "feed/"@)
}

/// The WordPress candidates added to `found`: the REST posts endpoint joined to
/// the API base and to the page, then, unless a candidate already ends in
/// `feed/`, the feed path joined the same two ways. A join that fails adds nothing.
pub open spec fn wp_candidates(
    page: Seq<char>,
    api: Seq<char>,
    found: Seq<(Seq<char>, FeedKind)>,
) -> Seq<(Seq<char>, FeedKind)> {
    let with_wp = opt_push(
        opt_push(found, url_join_of(api, "wp/v2/posts"@), FeedKind::WP),
        url_join_of(page, "wp/v2/posts"@),
        FeedKind::WP,
    );
    if ends_in_feed(with_wp) {
        with_wp
    } else {
        opt_push(
            opt_push(with_wp, url_join_of(api, "feed/"@), FeedKind::RSS),
            url_join_of(page, "feed/"@),
            FeedKind::RSS,
        )
    }
}

/// The candidates from `<link>` elements and the WordPress marker.
pub open spec fn marked_candidates(page: Seq<char>, html: Seq<char>) -> Seq<(Seq<char>, FeedKind)> {
    let linked = resolve_all(page, rss_link_hrefs(html), FeedKind::RSS) + resolve_all(
        page,
        atom_link_hrefs(html),
        FeedKind::Atom,
    );
    match wp_api_href(html) {
        None => linked,
        Some(api) => wp_candidates(page, api, linked),
    }
}

/// The candidate feeds of a page, in the order they are found; absent only
/// where the page URL does not parse. Anchors are read only when no `<link>`
/// or WordPress candidate exists.
pub open spec fn scan_view(page: Seq<char>, html: Seq<char>) -> Option<Seq<(Seq<char>, FeedKind)>> {
    if !url_parses(page) {
        None
    } else if marked_candidates(page, html).len() > 0 {
        Some(marked_candidates(page, html))
    } else {
        Some(resolve_all(page, rss_anchor_hrefs(html), FeedKind::RSS))
    }
}

fn resolve_one(page: &str, href: &str) -> (r: Option<String>)
    ensures
        opt_view(r) == resolve_href(page@, href@),
{
    if url_is_valid(href) {
        Some(href.to_owned())
    } else {
        join_url(page, href)
    }
}

/// Appends each href that is there and resolves, paired with `kind`.
fn push_resolved(
    page: &str,
    hrefs: &Vec<Option<String>>,
    kind: FeedKind,
    out: &mut Vec<(String, FeedKind)>,
)
    ensures
        candidates_view(final(out)@) == candidates_view(old(out)@) + resolve_all(
            page@,
            opt_strings_view(hrefs@),
            kind,
        ),
{
    let ghost start = candidates_view(out@);
    let mut i: usize = 0;
    while i < hrefs.len()
        invariant
            i <= hrefs.len(),
            candidates_view(out@) == start + resolve_all(
                page@,
                opt_strings_view(hrefs@.subrange(0, i as int)),
                kind,
            ),
        decreases hrefs.len() - i,
    {
        let ghost before = candidates_view(out@);
        let ghost prev = resolve_all(page@, opt_strings_view(hrefs@.subrange(0, i as int)), kind);
        proof {
            assert(opt_strings_view(hrefs@.subrange(0, i + 1)).drop_last() =~= opt_strings_view(
                hrefs@.subrange(0, i as int),
            ));
            assert(opt_strings_view(hrefs@.subrange(0, i + 1)).last() == opt_view(hrefs@[i as int]));
        }
        match &hrefs[i] {
            None => {},
            Some(h) => match resolve_one(page, h.as_str()) {
                None => {},
                Some(u) => {
                    let ghost uv = u@;
                    out.push((u, kind));
                    proof {
                        assert(candidates_view(out@) =~= before.push((uv, kind)));
                        assert(candidates_view(out@) =~= start + (prev + seq![(uv, kind)]));
                    }
                },
            },
        }
        i += 1;
    }
    proof {
        assert(hrefs@.subrange(0, hrefs@.len() as int) =~= hrefs@);
    }
}

fn push_opt(o: Option<String>, kind: FeedKind, out: &mut Vec<(String, FeedKind)>)
    ensures
        candidates_view(final(out)@) == opt_push(candidates_view(old(out)@), opt_view(o), kind),
{
    match o {
        Some(u) => {
            let ghost before = candidates_view(out@);
            let ghost uv = u@;
            out.push((u, kind));
            assert(candidates_view(out@) =~= before.push((uv, kind)));
        },
        None => {},
    }
}

fn filter_rss(hrefs: &Vec<Option<String>>) -> (r: Vec<Option<String>>)
    ensures
        opt_strings_view(r@) == rss_only(opt_strings_view(hrefs@)),
{
    let mut out: Vec<Option<String>> = Vec::new();
    let mut i: usize = 0;
    while i < hrefs.len()
        invariant
            i <= hrefs.len(),
            opt_strings_view(out@) == rss_only(opt_strings_view(hrefs@.subrange(0, i as int))),
        decreases hrefs.len() - i,
    {
        proof {
            assert(opt_strings_view(hrefs@.subrange(0, i + 1)).drop_last() =~= opt_strings_view(
                hrefs@.subrange(0, i as int),
            ));
            assert(opt_strings_view(hrefs@.subrange(0, i + 1)).last() == opt_view(hrefs@[i as int]));
        }
        let ghost before = out@;
        match &hrefs[i] {
            None => {},
            Some(h) => {
                if contains(h.as_str(), "rss") {
                    let c = Some(h.clone());
                    out.push(c);
                    proof {
                        assert(opt_strings_view(out@) =~= opt_strings_view(before).push(opt_view(c)));
                    }
                }
            },
        }
        i += 1;
        proof {
            assert(opt_strings_view(out@) =~= rss_only(
                opt_strings_view(hrefs@.subrange(0, i as int)),
            ));
        }
    }
    proof {
        assert(hrefs@.subrange(0, hrefs@.len() as int) =~= hrefs@);
    }
    out
}

fn any_ends_in_feed(cs: &Vec<(String, FeedKind)>) -> (r: bool)
    ensures
        r == ends_in_feed(candidates_view(cs@)),
{
    let mut i: usize = 0;
    while i < cs.len()
        invariant
            i <= cs.len(),
            forall|j: int|
                0 <= j < i ==> !has_suffix(#[trigger] candidates_view(cs@)[j].0, "feed/"@),
        decreases cs.len() - i,
    {
        if ends_with(cs[i].0.as_str(), "feed/") {
            assert(has_suffix(candidates_view(cs@)[i as int].0, "feed/"@));
            return true;
        }
        i += 1;
    }
    false
}

/// What a page yields for discovery: the feeds parsed from the page text
/// itself, the candidate feed URLs it advertises, and its favicon.
pub struct PageScan {
    pub feeds: Vec<Feed>,
    pub candidates: Vec<(String, FeedKind)>,
    pub favicon: Option<String>,
}

impl<C: Cache> HttpCollector<C> {
    /// The candidate feeds that an HTML page advertises: its RSS and Atom
    /// `<link>` elements, then the WordPress endpoints, and only where neither
    /// gives any, its anchors whose href contains "rss". Hrefs are resolved
    /// against the page; one that cannot be is left out.
    pub fn detect_possible_feeds(&self, link: &str, html: &str) -> (r: Result<
        Vec<(String, FeedKind)>,
    >)
        ensures
            match scan_view(link@, html@) {
                Some(s) => r is Ok && candidates_view(r->Ok_0@) == s,
                None => r is Err && r->Err_0.kind == ErrorKind::UrlParse,
            },
    {
        if !url_is_valid(link) {
            return Err(Error::new(ErrorKind::UrlParse, "invalid page URL".to_owned()));
        }
        let mut out: Vec<(String, FeedKind)> = Vec::new();
        let rss = select_all_attr(html, "link[type=\"application/rss+xml\"]", "href");
        push_resolved(link, &rss, FeedKind::RSS, &mut out);
        let atom = select_all_attr(html, "link[type=\"application/atom+xml\"]", "href");
        push_resolved(link, &atom, FeedKind::Atom, &mut out);
        assert(candidates_view(out@) =~= resolve_all(link@, rss_link_hrefs(html@), FeedKind::RSS)
            + resolve_all(link@, atom_link_hrefs(html@), FeedKind::Atom));
        match select_first_attr(html, "link[rel=\"https://api.w.org/\"]", "href") {
            None => {},
            Some(api) => {
                push_opt(join_url(api.as_str(), "wp/v2/posts"), FeedKind::WP, &mut out);
                push_opt(join_url(link, "wp/v2/posts"), FeedKind::WP, &mut out);
                if !any_ends_in_feed(&out) {
                    push_opt(join_url(api.as_str(), "feed/"), FeedKind::RSS, &mut out);
                    push_opt(join_url(link, "feed/"), FeedKind::RSS, &mut out);
                }
            },
        }
        if out.len() == 0 {
            let anchors = select_all_attr(html, "a", "href");
            let hrefs = filter_rss(&anchors);
            let ghost empty = candidates_view(out@);
            push_resolved(link, &hrefs, FeedKind::RSS, &mut out);
            assert(empty =~= Seq::<(Seq<char>, FeedKind)>::empty());
            assert(candidates_view(out@) =~= resolve_all(link@, rss_anchor_hrefs(html@), FeedKind::RSS));
        }
        Ok(out)
    }

    /// Reads a fetched page for discovery: the page itself may be a feed, and
    /// it may advertise candidate feeds and a favicon. Fails only where the
    /// page URL does not parse.
    pub fn scan_page(&self, link: &str, content: &str) -> (r: Result<PageScan>)
        ensures
            match scan_view(link@, content@) {
                Some(s) => r is Ok && candidates_view(r->Ok_0.candidates@) == s,
                None => r is Err && r->Err_0.kind == ErrorKind::UrlParse,
            },
            r is Ok ==> opt_view(r->Ok_0.favicon) == favicon_of(content@),
            r is Ok ==> exists|now: i64|
                #[trigger] parsed_views(link@, content@, now) == feeds_view(r->Ok_0.feeds@),
    {
        let feeds = self.traverse_parsers(link, content);
        let favicon = select_first_attr(content, "link[rel=\"icon\"]", "href");
        let candidates = self.detect_possible_feeds(link, content)?;
        Ok(PageScan { feeds, candidates, favicon })
    }
}

/// The feeds that discovery returns: those parsed from the page itself, then
/// every candidate that resolved, its missing image filled from the favicon.
/// Candidates that failed are dropped.
pub fn collect_discovered(
    direct: Vec<Feed>,
    checked: Vec<Result<Feed>>,
    favicon: &Option<String>,
) -> (r: Vec<Feed>)
    ensures
        feeds_view(r@) == feeds_view(direct@) + ok_feeds(checked@, opt_view(*favicon)),
{
    let mut out = direct;
    let ghost start = feeds_view(out@);
    let mut rest = checked;
    let ghost all = rest@;
    let mut i: usize = 0;
    let n = rest.len();
    while i < n
        invariant
            n == all.len(),
            i <= n,
            rest@ == all.subrange(i as int, n as int),
            feeds_view(out@) == start + ok_feeds(all.subrange(0, i as int), opt_view(*favicon)),
        decreases n - i,
    {
        let ghost before = feeds_view(out@);
        let item = rest.remove(0);
        assert(item == all[i as int]);
        assert(rest@ =~= all.subrange(i + 1, n as int));
        proof {
            assert(all.subrange(0, i + 1).drop_last() =~= all.subrange(0, i as int));
        }
        match item {
            Ok(feed) => {
                let f = backfill_image(feed, favicon);
                out.push(f);
                proof {
                    assert(feeds_view(out@) =~= before.push(f@));
                }
            },
            Err(_) => {},
        }
        i += 1;
        proof {
            assert(feeds_view(out@) =~= start + ok_feeds(all.subrange(0, i as int), opt_view(*favicon)));
        }
    }
    proof {
        assert(all.subrange(0, n as int) =~= all);
    }
    out
}

/// A page with no feed `<link>`, no WordPress marker and no anchor whose href
/// contains "rss" yields no candidates, so discovery returns only the feeds
/// parsed from the page itself.
pub proof fn lemma_no_markers_only_page_feeds(
    page: Seq<char>,
    html: Seq<char>,
    direct: Seq<FeedView>,
    favicon: Option<Seq<char>>,
)
    requires
        url_parses(page),
        rss_link_hrefs(html).len() == 0,
        atom_link_hrefs(html).len() == 0,
        wp_api_href(html) is None,
        rss_anchor_hrefs(html).len() == 0,
    ensures
        scan_view(page, html) == Some(Seq::<(Seq<char>, FeedKind)>::empty()),
        direct + ok_feeds(Seq::empty(), favicon) == direct,
{
    assert(marked_candidates(page, html) =~= Seq::<(Seq<char>, FeedKind)>::empty());
    assert(resolve_all(page, rss_anchor_hrefs(html), FeedKind::RSS) =~= Seq::<
        (Seq<char>, FeedKind),
    >::empty());
    assert(direct + ok_feeds(Seq::empty(), favicon) =~= direct);
}

/// The anchor fallback never runs where a `<link>` or WordPress candidate exists.
pub proof fn lemma_anchors_only_as_fallback(page: Seq<char>, html: Seq<char>)
    requires
        url_parses(page),
        marked_candidates(page, html).len() > 0,
    ensures
        scan_view(page, html) == Some(marked_candidates(page, html)),
{
}

} // verus!
