use vstd::prelude::*;
use crate::error::{Error, ErrorKind, Result};
use crate::models::{opt_view, Feed, FeedKind, FeedView};
use crate::normalize::{
    atom_doc_of, atom_parse_view, now_seconds, parse_atom_feed, parse_atom_feed_at, parse_rss_feed,
    parse_rss_feed_at, parsed_as, rss_doc_of, rss_parse_view,
};

verus! {

/// Receives the outcome of each processed source: the feed, its kind and the
/// URL it was requested under, or the error.
pub trait ResultsHandler {
    fn process(&self, result: Result<(&Feed, FeedKind, String)>);
}

/// Remembers the kind that a source URL resolved to.
pub trait Cache {
    fn get(&self, link: &str) -> Option<FeedKind>;

    fn set(&self, link: &str, feed_kind: &FeedKind) -> Result<()>;
}

/// A cache that remembers nothing.
pub struct CacheStub {}

impl Cache for CacheStub {
    fn get(&self, link: &str) -> (r: Option<FeedKind>)
        ensures
            r is None,
    {
        None
    }

    fn set(&self, link: &str, feed_kind: &FeedKind) -> (r: Result<()>)
        ensures
            r is Ok,
    {
        Ok(())
    }
}

/// The collector: decides how each source is read and normalizes what was
/// fetched. Fetching itself is left to the caller.
pub struct HttpCollector<C: Cache> {
    pub cache: C,
}

/// What to do for a source after its kind is known or looked up.
#[derive(Clone, Copy, Debug, PartialEq, Eq, Structural)]
pub enum ScrapePlan {
    /// Fetch the URL and parse it as this kind.
    Parse(FeedKind),
    /// Fetch the URL and try every parser.
    Resolve,
    /// The kind cannot be fetched as a feed.
    Unsupported,
}

/// The plan for a source of the given kind; `cached` is what the cache holds
/// for it, consulted only where the kind is not given.
pub open spec fn plan_view(kind: Option<FeedKind>, cached: Option<FeedKind>) -> ScrapePlan {
    let k = match kind {
        Some(k) => Some(k),
        None => cached,
    };
    match k {
        Some(FeedKind::WP) => ScrapePlan::Unsupported,
        Some(k) => ScrapePlan::Parse(k),
        None => ScrapePlan::Resolve,
    }
}

/// `i` is the index the tie-break takes: the first RSS-typed feed, else the first.
pub open spec fn is_pick(fs: Seq<Feed>, i: int) -> bool {
    &&& 0 <= i < fs.len()
    &&& forall|j: int| 0 <= j < i ==> fs[j].kind != FeedKind::RSS
    &&& (fs[i].kind == FeedKind::RSS || (i == 0 && forall|j: int|
        0 <= j < fs.len() ==> fs[j].kind != FeedKind::RSS))
}

/// The outcome handed to a results handler for a scraped source.
pub open spec fn outcome_matches(
    scraped: Result<Feed>,
    link: String,
    r: Result<(Feed, FeedKind, String)>,
) -> bool {
    match scraped {
        Ok(f) => r == Ok::<(Feed, FeedKind, String), Error>((f, f.kind, link)),
        Err(e) => r == Err::<(Feed, FeedKind, String), Error>(e),
    }
}

/// The feed with its missing image filled from the page's favicon.
pub open spec fn backfilled(v: FeedView, favicon: Option<Seq<char>>) -> FeedView {
    match v.image {
        Some(_) => v,
        None => FeedView { image: favicon, ..v },
    }
}

pub open spec fn ok_feeds(outcomes: Seq<Result<Feed>>, favicon: Option<Seq<char>>) -> Seq<FeedView> {
    outcomes.filter_map(
        |o: Result<Feed>|
            match o {
                Ok(f) => Some(backfilled(f@, favicon)),
                Err(_) => None,
            },
    )
}

/// The feeds that the parsers yield for a text, RSS first.
pub open spec fn parsed_views(link: Seq<char>, text: Seq<char>, now: i64) -> Seq<FeedView> {
    let a = match rss_parse_view(link, text, now) {
        Some(v) => seq![v],
        None => Seq::empty(),
    };
    let b = match atom_parse_view(link, text, now) {
        Some(v) => seq![v],
        None => Seq::empty(),
    };
    a + b
}

/// The feed that resolution picks for a text: its RSS reading where there is
/// one, else its Atom reading.
pub open spec fn resolved_view(link: Seq<char>, text: Seq<char>, now: i64) -> Option<FeedView> {
    match rss_parse_view(link, text, now) {
        Some(v) => Some(v),
        None => atom_parse_view(link, text, now),
    }
}

pub open spec fn feeds_view(fs: Seq<Feed>) -> Seq<FeedView> {
    fs.map_values(|f: Feed| f@)
}

impl HttpCollector<CacheStub> {
    /// A collector with a cache that remembers nothing.
    pub fn new() -> (r: HttpCollector<CacheStub>) {
        HttpCollector { cache: CacheStub {  } }
    }
}

impl<C: Cache> HttpCollector<C> {
    /// Replaces the cache.
    pub fn with_cache(&mut self, cache: C)
        ensures
            final(self).cache == cache,
    {
        self.cache = cache
    }

    /// Decides how to read a source. The cache is consulted only where no
    /// kind is given; a WordPress source is refused before any fetch.
    pub fn plan(&self, kind: Option<FeedKind>, link: &str) -> (r: ScrapePlan)
        ensures
            kind is Some ==> r == plan_view(kind, None),
            kind == Some(FeedKind::WP) ==> r == ScrapePlan::Unsupported,
    {
        let cached = match kind {
            Some(_) => None,
            None => self.cache.get(link),
        };
        plan_for(kind, cached)
    }

    /// Parses fetched text as the given kind.
    pub fn parse_known(&self, kind: FeedKind, link: &str, content: &str) -> (r: Result<Feed>)
        ensures
            kind == FeedKind::RSS ==> exists|now: i64|
                parsed_as(r, #[trigger] rss_parse_view(link@, content@, now), ErrorKind::RssParse),
            kind == FeedKind::Atom ==> exists|now: i64|
                parsed_as(r, #[trigger] atom_parse_view(link@, content@, now), ErrorKind::AtomParse),
            kind == FeedKind::WP ==> r is Err && r->Err_0.kind == ErrorKind::SourceNotSupported,
    {
        match kind {
            FeedKind::RSS => parse_rss_feed(link, content),
            FeedKind::Atom => parse_atom_feed(link, content),
            FeedKind::WP => Err(unsupported()),
        }
    }

    /// Runs every parser on the text, RSS first, keeping those that succeed.
    /// Both read the clock once, before parsing.
    pub fn traverse_parsers(&self, link: &str, content: &str) -> (r: Vec<Feed>)
        ensures
            exists|now: i64| #[trigger] parsed_views(link@, content@, now) == feeds_view(r@),
    {
        let now = now_seconds();
        let mut result: Vec<Feed> = Vec::new();
        match parse_rss_feed_at(link, content, now) {
            Ok(feed) => result.push(feed),
            Err(_) => {},
        }
        match parse_atom_feed_at(link, content, now) {
            Ok(feed) => result.push(feed),
            Err(_) => {},
        }
        assert(parsed_views(link@, content@, now) =~= feeds_view(result@));
        result
    }

    /// Resolves a source of unknown kind from its fetched text, and records
    /// the kind in the cache. A failed cache write is ignored.
    pub fn resolve_unknown(&self, link: &str, content: &str) -> (r: Result<Feed>)
        ensures
            match r {
                Ok(f) => exists|now: i64| #[trigger] resolved_view(link@, content@, now) == Some(f@),
                Err(e) => e.kind == ErrorKind::NoFeed && rss_doc_of(content@) is None
                    && atom_doc_of(content@) is None,
            },
    {
        let feeds = self.traverse_parsers(link, content);
        let ghost now = choose|now: i64| #[trigger] parsed_views(link@, content@, now) == feeds_view(feeds@);
        let ghost fs = feeds@;
        let r = select_feed(feeds);
        proof {
            if fs.len() > 0 {
                assert(feeds_view(fs)[0] == fs[0]@);
                let i = choose|i: int| is_pick(fs, i) && r->Ok_0 == fs[i];
                assert(fs[0].kind == FeedKind::RSS);
                assert(i == 0);
                assert(resolved_view(link@, content@, now) == Some(r->Ok_0@));
            } else {
                assert(parsed_views(link@, content@, now).len() == 0);
                assert(rss_parse_view(link@, content@, now) is None);
                assert(atom_parse_view(link@, content@, now) is None);
            }
        }
        match &r {
            Ok(feed) => {
                let _ = self.cache.set(link, &feed.kind);
            },
            Err(_) => {},
        }
        r
    }
}

/// The plan for a source of the given kind, where `cached` is what the cache
/// returned for it.
pub fn plan_for(kind: Option<FeedKind>, cached: Option<FeedKind>) -> (r: ScrapePlan)
    ensures
        r == plan_view(kind, cached),
{
    let k = match kind {
        Some(k) => Some(k),
        None => cached,
    };
    match k {
        Some(FeedKind::WP) => ScrapePlan::Unsupported,
        Some(k) => ScrapePlan::Parse(k),
        None => ScrapePlan::Resolve,
    }
}

/// The error for a source kind that cannot be fetched.
pub fn unsupported() -> (r: Error)
    ensures
        r.kind == ErrorKind::SourceNotSupported,
{
    Error::new(ErrorKind::SourceNotSupported, "source not supported".to_owned())
}

/// The tie-break among parsed feeds: none is an error, else the first
/// RSS-typed one, else the first.
pub fn select_feed(feeds: Vec<Feed>) -> (r: Result<Feed>)
    ensures
        feeds@.len() == 0 ==> r is Err && r->Err_0.kind == ErrorKind::NoFeed,
        feeds@.len() > 0 ==> r is Ok && exists|i: int| is_pick(feeds@, i) && r->Ok_0 == feeds@[i],
{
    if feeds.len() == 0 {
        return Err(Error::new(ErrorKind::NoFeed, "no feed found".to_owned()));
    }
    let mut fs = feeds;
    let mut i: usize = 0;
    while i < fs.len()
        invariant
            fs@ == feeds@,
            feeds@.len() > 0,
            i <= fs@.len(),
            forall|j: int| 0 <= j < i ==> fs@[j].kind != FeedKind::RSS,
        decreases fs.len() - i,
    {
        if fs[i].kind == FeedKind::RSS {
            let f = fs.remove(i);
            assert(is_pick(feeds@, i as int));
            return Ok(f);
        }
        i += 1;
    }
    let f = fs.remove(0);
    assert(is_pick(feeds@, 0));
    Ok(f)
}

/// The tie-break is a function of the feeds: it picks one index only.
pub proof fn lemma_pick_unique(fs: Seq<Feed>, i: int, j: int)
    requires
        is_pick(fs, i),
        is_pick(fs, j),
    ensures
        i == j,
{
}

/// Where any parsed feed is RSS-typed, the tie-break picks an RSS-typed one.
pub proof fn lemma_pick_prefers_rss(fs: Seq<Feed>, i: int, k: int)
    requires
        is_pick(fs, i),
        0 <= k < fs.len(),
        fs[k].kind == FeedKind::RSS,
    ensures
        fs[i].kind == FeedKind::RSS,
{
}

/// A WordPress source is refused whatever the cache holds.
pub proof fn lemma_wp_unsupported(cached: Option<FeedKind>)
    ensures
        plan_view(Some(FeedKind::WP), cached) == ScrapePlan::Unsupported,
{
}

/// What a results handler receives for a scraped source: the feed as
/// produced, its own kind and the URL it was requested under.
pub fn outcome(scraped: Result<Feed>, link: String) -> (r: Result<(Feed, FeedKind, String)>)
    ensures
        outcome_matches(scraped, link, r),
{
    match scraped {
        Ok(feed) => {
            let kind = feed.kind;
            Ok((feed, kind, link))
        },
        Err(e) => Err(e),
    }
}

/// Hands the outcome of a scraped source to a results handler.
pub fn scrape_and_process_content<H: ResultsHandler>(
    handler: &H,
    scraped: Result<Feed>,
    link: String,
) {
    match outcome(scraped, link) {
        Ok((feed, kind, link)) => handler.process(Ok((&feed, kind, link))),
        Err(e) => handler.process(Err(e)),
    }
}

/// Fills a feed's missing image with the page's favicon; an image it has is kept.
pub fn backfill_image(feed: Feed, favicon: &Option<String>) -> (r: Feed)
    ensures
        r@ == backfilled(feed@, opt_view(*favicon)),
{
    let mut feed = feed;
    match feed.image {
        Some(_) => {},
        None => {
            feed.image = crate::models::copy_opt(favicon);
        },
    }
    feed
}

} // verus!
