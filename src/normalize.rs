use vstd::prelude::*;
use atom_syndication::Feed as AtomFeed;
use crate::error::{Error, ErrorKind, Result};
use crate::models::{
    atom_entries_view, copy_opt, items_view, opt_view, rss_entries_view, AtomDoc, AtomDocView,
    AtomEntry, AtomEntryView, Feed, FeedItem, FeedItemView, FeedKind, FeedView, RssDoc,
    RssDocView, RssEntry, RssEntryView,
};
use crate::scan::{first_attr_of, select_first_attr};

verus! {

#[verifier::external_type_specification]
#[verifier::external_body]
pub struct ExRssItem(rss::Item);

#[verifier::external_type_specification]
#[verifier::external_body]
pub struct ExAtomEntry(atom_syndication::Entry);

/// What rss's reader finds in a text: absent where the text is not an RSS
/// channel, else its title, image URL and items.
pub uninterp spec fn rss_doc_of(text: Seq<char>) -> Option<RssDocView>;

/// What atom_syndication's reader finds in a text: absent where the text is
/// not an Atom feed, else its title, icon and entries.
pub uninterp spec fn atom_doc_of(text: Seq<char>) -> Option<AtomDocView>;

/// The instant, in seconds since the Unix epoch, that chrono reads from an
/// RFC 2822 date.
pub uninterp spec fn rfc2822_seconds_of(text: Seq<char>) -> Option<i64>;

/// Relies on the accessors of rss::Item and rss::Guid: copies out the fields
/// that normalization reads.
#[verifier::external_body]
fn rss_entry(i: &rss::Item) -> RssEntry {
    let s = |o: Option<&str>| o.map(str::to_owned);
    RssEntry {
        title: s(i.title()),
        link: s(i.link()),
        description: s(i.description()),
        content: s(i.content()),
        guid: s(i.guid().map(|g| g.value())),
        pub_date: s(i.pub_date()),
    }
}

/// Relies on `<rss::Channel as FromStr>::from_str` and on the accessors of
/// rss::Channel and rss::Image; each item is copied out by `rss_entry`.
#[verifier::external_body]
fn read_rss(text: &str) -> (r: core::result::Result<RssDoc, String>)
    ensures
        match r {
            Ok(d) => rss_doc_of(text@) == Some(d@),
            Err(_) => rss_doc_of(text@) is None,
        },
{
    let c = <rss::Channel as core::str::FromStr>::from_str(text).map_err(|e| e.to_string())?;
    Ok(RssDoc {
        title: c.title().to_owned(),
        image: c.image().map(|i| i.url().to_owned()),
        entries: c.items().iter().map(rss_entry).collect(),
    })
}

/// Relies on the accessors of atom_syndication's Entry, Link, Text and Content,
/// and on chrono's DateTime::timestamp: copies out the fields that
/// normalization reads.
#[verifier::external_body]
fn atom_entry(e: &atom_syndication::Entry) -> AtomEntry {
    AtomEntry {
        title: e.title().as_str().to_owned(),
        id: e.id().to_owned(),
        links: e.links().iter().map(|l| l.href().to_owned()).collect(),
        content: e.content().and_then(|c| c.value()).map(str::to_owned),
        summary: e.summary().map(|t| t.as_str().to_owned()),
        published: e.published().map(|d| d.timestamp()),
        updated: e.updated().timestamp(),
    }
}

/// Relies on `<atom_syndication::Feed as FromStr>::from_str` and on the
/// accessors of its Feed; each entry is copied out by `atom_entry`.
#[verifier::external_body]
fn read_atom(text: &str) -> (r: core::result::Result<AtomDoc, String>)
    ensures
        match r {
            Ok(d) => atom_doc_of(text@) == Some(d@),
            Err(_) => atom_doc_of(text@) is None,
        },
{
    let f = <AtomFeed as core::str::FromStr>::from_str(text).map_err(|e| e.to_string())?;
    Ok(AtomDoc {
        title: f.title().as_str().to_owned(),
        icon: f.icon().map(str::to_owned),
        entries: f.entries().iter().map(atom_entry).collect(),
    })
}

/// Relies on chrono's DateTime::parse_from_rfc2822 and DateTime::timestamp.
#[verifier::external_body]
fn rfc2822_seconds(text: &str) -> (r: Option<i64>)
    ensures
        r == rfc2822_seconds_of(text@),
{
    chrono::DateTime::parse_from_rfc2822(text).ok().map(|d| d.timestamp())
}

/// Relies on chrono::Utc::now: the current instant in seconds since the Unix epoch.
#[verifier::external_body]
pub(crate) fn now_seconds() -> i64 {
    chrono::Utc::now().timestamp()
}

/// The `src` of the first `img` element of an HTML text.
pub open spec fn first_img_src_of(html: Seq<char>) -> Option<Seq<char>> {
    first_attr_of(html, "img"@, "src"@)
}

/// The first image of an HTML fragment, if any: the `src` of its first `img`
/// element, absent where that element has none.
pub fn get_image(content: &str) -> (r: Option<String>)
    ensures
        opt_view(r) == first_img_src_of(content@),
{
    select_first_attr(content, "img", "src")
}

/// An optional text that is there and not empty.
pub open spec fn present(o: Option<Seq<char>>) -> bool {
    o is Some && o->0.len() > 0
}

/// The identifier of an entry: its own id if present, else its link.
pub open spec fn identity_of(id: Option<Seq<char>>, link: Option<Seq<char>>) -> Option<Seq<char>> {
    if present(id) {
        id
    } else if present(link) {
        link
    } else {
        None
    }
}

/// The body of an entry: its content if present, else its description.
pub open spec fn body_of(content: Option<Seq<char>>, description: Option<Seq<char>>) -> Seq<char> {
    match content {
        Some(c) => c,
        None => match description {
            Some(d) => d,
            None => Seq::empty(),
        },
    }
}

/// The date of an RSS item, or `now` where it is missing or not RFC 2822.
pub open spec fn rss_date(date: Option<Seq<char>>, now: i64) -> i64 {
    match date {
        Some(d) => match rfc2822_seconds_of(d) {
            Some(s) => s,
            None => now,
        },
        None => now,
    }
}

/// The date of an Atom entry: `published`, else `updated`, else `now`. An
/// `updated` at the Unix epoch is what atom_syndication gives for a missing
/// element, so it counts as missing.
pub open spec fn atom_date(published: Option<i64>, updated: i64, now: i64) -> i64 {
    match published {
        Some(p) => p,
        None => if updated == 0 {
            now
        } else {
            updated
        },
    }
}

pub open spec fn rss_item_view(e: RssEntryView, now: i64) -> Option<FeedItemView> {
    match identity_of(e.guid, e.link) {
        None => None,
        Some(guid) => Some(
            FeedItemView {
                title: e.title,
                content: body_of(e.content, e.description),
                pub_date: rss_date(e.pub_date, now),
                guid,
                image_link: first_img_src_of(body_of(e.content, e.description)),
            },
        ),
    }
}

pub open spec fn rss_items_view(es: Seq<RssEntryView>, now: i64) -> Seq<FeedItemView> {
    es.filter_map(|e: RssEntryView| rss_item_view(e, now))
}

pub open spec fn first_link(links: Seq<Seq<char>>) -> Option<Seq<char>> {
    if links.len() > 0 {
        Some(links[0])
    } else {
        None
    }
}

pub open spec fn atom_item_view(e: AtomEntryView, now: i64) -> Option<FeedItemView> {
    match identity_of(Some(e.id), first_link(e.links)) {
        None => None,
        Some(guid) => Some(
            FeedItemView {
                title: Some(e.title),
                content: body_of(e.content, e.summary),
                pub_date: atom_date(e.published, e.updated, now),
                guid,
                image_link: first_img_src_of(body_of(e.content, e.summary)),
            },
        ),
    }
}

pub open spec fn atom_items_view(es: Seq<AtomEntryView>, now: i64) -> Seq<FeedItemView> {
    es.filter_map(|e: AtomEntryView| atom_item_view(e, now))
}

/// A feed as the RSS normalization builds it. Both formats yield kind `RSS`.
pub open spec fn rss_feed_view(
    link: Seq<char>,
    name: Seq<char>,
    image: Option<Seq<char>>,
    es: Seq<RssEntryView>,
    now: i64,
) -> FeedView {
    FeedView { image, link, kind: FeedKind::RSS, name, content: rss_items_view(es, now) }
}

pub open spec fn atom_feed_view(
    link: Seq<char>,
    name: Seq<char>,
    icon: Option<Seq<char>>,
    es: Seq<AtomEntryView>,
    now: i64,
) -> FeedView {
    FeedView { image: icon, link, kind: FeedKind::RSS, name, content: atom_items_view(es, now) }
}

/// The feed that an RSS text normalizes to, `now` standing for missing dates;
/// absent where the text is not RSS.
pub open spec fn rss_parse_view(link: Seq<char>, text: Seq<char>, now: i64) -> Option<FeedView> {
    match rss_doc_of(text) {
        Some(d) => Some(rss_feed_view(link, d.title, d.image, d.entries, now)),
        None => None,
    }
}

/// The feed that an Atom text normalizes to, `now` standing for missing dates;
/// absent where the text is not Atom.
pub open spec fn atom_parse_view(link: Seq<char>, text: Seq<char>, now: i64) -> Option<FeedView> {
    match atom_doc_of(text) {
        Some(d) => Some(atom_feed_view(link, d.title, d.icon, d.entries, now)),
        None => None,
    }
}

fn non_empty(o: &Option<String>) -> (r: bool)
    ensures
        r == present(opt_view(*o)),
{
    match o {
        Some(s) => !s.as_str().is_empty(),
        None => false,
    }
}

fn pick_identity(id: &Option<String>, link: &Option<String>) -> (r: Option<String>)
    ensures
        opt_view(r) == identity_of(opt_view(*id), opt_view(*link)),
{
    if non_empty(id) {
        copy_opt(id)
    } else if non_empty(link) {
        copy_opt(link)
    } else {
        None
    }
}

fn pick_body(content: &Option<String>, description: &Option<String>) -> (r: String)
    ensures
        r@ == body_of(opt_view(*content), opt_view(*description)),
{
    match content {
        Some(c) => c.clone(),
        None => match description {
            Some(d) => d.clone(),
            None => String::new(),
        },
    }
}

/// Normalizes one RSS item; `None` where it has neither guid nor link.
pub fn rss_item(e: &RssEntry, now: i64) -> (r: Option<FeedItem>)
    ensures
        match r {
            Some(i) => rss_item_view(e@, now) == Some(i@),
            None => rss_item_view(e@, now) is None,
        },
{
    match pick_identity(&e.guid, &e.link) {
        None => None,
        Some(guid) => {
            let content = pick_body(&e.content, &e.description);
            let image_link = get_image(content.as_str());
            let pub_date = match &e.pub_date {
                Some(d) => match rfc2822_seconds(d.as_str()) {
                    Some(s) => s,
                    None => now,
                },
                None => now,
            };
            Some(FeedItem { title: copy_opt(&e.title), content, pub_date, guid, image_link })
        },
    }
}

/// Normalizes one Atom entry; `None` where it has neither id nor link.
pub fn atom_item(e: &AtomEntry, now: i64) -> (r: Option<FeedItem>)
    ensures
        match r {
            Some(i) => atom_item_view(e@, now) == Some(i@),
            None => atom_item_view(e@, now) is None,
        },
{
    let id = Some(e.id.clone());
    let link = if e.links.len() > 0 {
        Some(e.links[0].clone())
    } else {
        None
    };
    match pick_identity(&id, &link) {
        None => None,
        Some(guid) => {
            let content = pick_body(&e.content, &e.summary);
            let image_link = get_image(content.as_str());
            let pub_date = match e.published {
                Some(p) => p,
                None => if e.updated == 0 {
                    now
                } else {
                    e.updated
                },
            };
            Some(FeedItem { title: Some(e.title.clone()), content, pub_date, guid, image_link })
        },
    }
}

proof fn lemma_push_view(items: Seq<FeedItem>, i: FeedItem)
    ensures
        items_view(items.push(i)) == items_view(items).push(i@),
{
    assert(items_view(items.push(i)) =~= items_view(items).push(i@));
}

/// Normalizes the items of an RSS channel, in order; `now` stands for missing dates.
pub fn rss_items_at(entries: &Vec<RssEntry>, now: i64) -> (r: Vec<FeedItem>)
    ensures
        items_view(r@) == rss_items_view(rss_entries_view(entries@), now),
{
    let mut out: Vec<FeedItem> = Vec::new();
    let mut i: usize = 0;
    while i < entries.len()
        invariant
            i <= entries.len(),
            items_view(out@) == rss_items_view(rss_entries_view(entries@.subrange(0, i as int)), now),
        decreases entries.len() - i,
    {
        let ghost before = out@;
        proof {
            assert(rss_entries_view(entries@.subrange(0, i + 1)).drop_last() =~= rss_entries_view(
                entries@.subrange(0, i as int),
            ));
            assert(rss_entries_view(entries@.subrange(0, i + 1)).last() == entries@[i as int]@);
        }
        match rss_item(&entries[i], now) {
            Some(it) => {
                out.push(it);
                proof {
                    lemma_push_view(before, it);
                }
            },
            None => {},
        }
        i += 1;
        proof {
            assert(items_view(out@) =~= rss_items_view(
                rss_entries_view(entries@.subrange(0, i as int)),
                now,
            ));
        }
    }
    proof {
        assert(entries@.subrange(0, entries@.len() as int) =~= entries@);
    }
    out
}

/// Normalizes the entries of an Atom feed, in order; `now` stands for missing dates.
pub fn atom_items(entries: &Vec<AtomEntry>, now: i64) -> (r: Vec<FeedItem>)
    ensures
        items_view(r@) == atom_items_view(atom_entries_view(entries@), now),
{
    let mut out: Vec<FeedItem> = Vec::new();
    let mut i: usize = 0;
    while i < entries.len()
        invariant
            i <= entries.len(),
            items_view(out@) == atom_items_view(atom_entries_view(entries@.subrange(0, i as int)), now),
        decreases entries.len() - i,
    {
        let ghost before = out@;
        proof {
            assert(atom_entries_view(entries@.subrange(0, i + 1)).drop_last() =~= atom_entries_view(
                entries@.subrange(0, i as int),
            ));
            assert(atom_entries_view(entries@.subrange(0, i + 1)).last() == entries@[i as int]@);
        }
        match atom_item(&entries[i], now) {
            Some(it) => {
                out.push(it);
                proof {
                    lemma_push_view(before, it);
                }
            },
            None => {},
        }
        i += 1;
        proof {
            assert(items_view(out@) =~= atom_items_view(
                atom_entries_view(entries@.subrange(0, i as int)),
                now,
            ));
        }
    }
    proof {
        assert(entries@.subrange(0, entries@.len() as int) =~= entries@);
    }
    out
}

/// Builds the feed of an RSS channel from its title, image and items.
pub fn build_rss_feed(
    link: &str,
    name: String,
    image: Option<String>,
    entries: &Vec<RssEntry>,
    now: i64,
) -> (r: Feed)
    ensures
        r@ == rss_feed_view(link@, name@, opt_view(image), rss_entries_view(entries@), now),
{
    let content = rss_items_at(entries, now);
    Feed { image, link: link.to_owned(), kind: FeedKind::RSS, name, content }
}

/// Builds the feed of an Atom document from its title, icon and entries.
pub fn build_atom_feed(
    link: &str,
    name: String,
    icon: Option<String>,
    entries: &Vec<AtomEntry>,
    now: i64,
) -> (r: Feed)
    ensures
        r@ == atom_feed_view(link@, name@, opt_view(icon), atom_entries_view(entries@), now),
{
    let content = atom_items(entries, now);
    Feed { image: icon, link: link.to_owned(), kind: FeedKind::RSS, name, content }
}

/// Parses an RSS document fetched from `link`; `now` stands for missing dates.
pub fn parse_rss_feed_at(link: &str, content: &str, now: i64) -> (r: Result<Feed>)
    ensures
        match r {
            Ok(f) => rss_parse_view(link@, content@, now) == Some(f@),
            Err(e) => rss_parse_view(link@, content@, now) is None && e.kind == ErrorKind::RssParse,
        },
{
    match read_rss(content) {
        Err(message) => Err(Error::new(ErrorKind::RssParse, message)),
        Ok(doc) => Ok(build_rss_feed(link, doc.title, doc.image, &doc.entries, now)),
    }
}

/// Parses an Atom document fetched from `link`; `now` stands for missing dates.
pub fn parse_atom_feed_at(link: &str, content: &str, now: i64) -> (r: Result<Feed>)
    ensures
        match r {
            Ok(f) => atom_parse_view(link@, content@, now) == Some(f@),
            Err(e) => atom_parse_view(link@, content@, now) is None && e.kind == ErrorKind::AtomParse,
        },
{
    match read_atom(content) {
        Err(message) => Err(Error::new(ErrorKind::AtomParse, message)),
        Ok(doc) => Ok(build_atom_feed(link, doc.title, doc.icon, &doc.entries, now)),
    }
}

/// The result of a parse, read at the instant `now`.
pub open spec fn parsed_as(r: Result<Feed>, v: Option<FeedView>, kind: ErrorKind) -> bool {
    match r {
        Ok(f) => v == Some(f@),
        Err(e) => v is None && e.kind == kind,
    }
}

/// Parses an RSS document fetched from `link`; items without a usable date
/// get the instant of the call.
pub fn parse_rss_feed(link: &str, content: &str) -> (r: Result<Feed>)
    ensures
        exists|now: i64|
            parsed_as(r, #[trigger] rss_parse_view(link@, content@, now), ErrorKind::RssParse),
{
    let now = now_seconds();
    let r = parse_rss_feed_at(link, content, now);
    assert(parsed_as(r, rss_parse_view(link@, content@, now), ErrorKind::RssParse));
    r
}

/// Parses an Atom document fetched from `link`; entries without a usable date
/// get the instant of the call.
pub fn parse_atom_feed(link: &str, content: &str) -> (r: Result<Feed>)
    ensures
        exists|now: i64|
            parsed_as(r, #[trigger] atom_parse_view(link@, content@, now), ErrorKind::AtomParse),
{
    let now = now_seconds();
    let r = parse_atom_feed_at(link, content, now);
    assert(parsed_as(r, atom_parse_view(link@, content@, now), ErrorKind::AtomParse));
    r
}

pub open spec fn has_identity(e: RssEntryView) -> bool {
    identity_of(e.guid, e.link) is Some
}

/// Every RSS item with a guid or a link is kept, in feed order, with a
/// non-empty guid; items with neither are left out.
pub proof fn lemma_rss_items_kept_in_order(es: Seq<RssEntryView>, now: i64)
    ensures
        rss_items_view(es, now).len() == es.filter(|e: RssEntryView| has_identity(e)).len(),
        forall|i: int|
            0 <= i < rss_items_view(es, now).len() ==> Some(#[trigger] rss_items_view(es, now)[i])
                == rss_item_view(es.filter(|e: RssEntryView| has_identity(e))[i], now),
        forall|i: int|
            0 <= i < rss_items_view(es, now).len() ==> #[trigger] rss_items_view(es, now)[i].guid.len()
                > 0,
    decreases es.len(),
{
    reveal(Seq::filter);
    let p = |e: RssEntryView| has_identity(e);
    if es.len() > 0 {
        lemma_rss_items_kept_in_order(es.drop_last(), now);
        let prev = rss_items_view(es.drop_last(), now);
        let kept = es.drop_last().filter(p);
        assert(es.filter(p) == if p(es.last()) {
            kept.push(es.last())
        } else {
            kept
        });
        if has_identity(es.last()) {
            assert(rss_items_view(es, now) == prev + seq![rss_item_view(es.last(), now)->0]);
            assert forall|i: int| 0 <= i < rss_items_view(es, now).len() implies Some(
                #[trigger] rss_items_view(es, now)[i],
            ) == rss_item_view(es.filter(p)[i], now) by {
                if i < prev.len() {
                    assert(rss_items_view(es, now)[i] == prev[i]);
                    assert(es.filter(p)[i] == kept[i]);
                }
            }
        } else {
            assert(rss_items_view(es, now) == prev);
        }
    }
}

/// An RSS item without a usable date is dated at the instant handed to the
/// normalization, which `parse_rss_feed` reads from the clock during the call.
pub proof fn lemma_missing_date_is_now(e: RssEntryView, now: i64)
    requires
        e.pub_date is None || rfc2822_seconds_of(e.pub_date->0) is None,
        has_identity(e),
    ensures
        rss_item_view(e, now)->0.pub_date == now,
{
}

/// An Atom entry with neither a published nor an updated instant is dated at
/// the instant handed to the normalization.
pub proof fn lemma_atom_missing_date_is_now(e: AtomEntryView, now: i64)
    requires
        e.published is None,
        e.updated == 0,
        identity_of(Some(e.id), first_link(e.links)) is Some,
    ensures
        atom_item_view(e, now)->0.pub_date == now,
{
}

} // verus!
