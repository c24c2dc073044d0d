use vstd::prelude::*;

verus! {

/// The syndication format of a source. `WP` marks a WordPress site: it can be
/// detected, but not fetched as a feed.
#[derive(Clone, Copy, Debug, PartialEq, Eq, Structural, Hash)]
pub enum FeedKind {
    RSS,
    Atom,
    WP,
}

/// One entry of a feed. `pub_date` is a UTC instant in seconds since the Unix epoch.
#[derive(Clone, Debug)]
pub struct FeedItem {
    pub title: Option<String>,
    pub content: String,
    pub pub_date: i64,
    pub guid: String,
    pub image_link: Option<String>,
}

/// One parsed source.
#[derive(Clone, Debug)]
pub struct Feed {
    pub image: Option<String>,
    pub link: String,
    pub kind: FeedKind,
    pub name: String,
    pub content: Vec<FeedItem>,
}

pub struct FeedItemView {
    pub title: Option<Seq<char>>,
    pub content: Seq<char>,
    pub pub_date: i64,
    pub guid: Seq<char>,
    pub image_link: Option<Seq<char>>,
}

pub struct FeedView {
    pub image: Option<Seq<char>>,
    pub link: Seq<char>,
    pub kind: FeedKind,
    pub name: Seq<char>,
    pub content: Seq<FeedItemView>,
}

pub open spec fn opt_view(o: Option<String>) -> Option<Seq<char>> {
    match o {
        Some(s) => Some(s@),
        None => None,
    }
}

impl View for FeedItem {
    type V = FeedItemView;

    open spec fn view(&self) -> FeedItemView {
        FeedItemView {
            title: opt_view(self.title),
            content: self.content@,
            pub_date: self.pub_date,
            guid: self.guid@,
            image_link: opt_view(self.image_link),
        }
    }
}

pub open spec fn items_view(items: Seq<FeedItem>) -> Seq<FeedItemView> {
    items.map_values(|i: FeedItem| i@)
}

impl View for Feed {
    type V = FeedView;

    open spec fn view(&self) -> FeedView {
        FeedView {
            image: opt_view(self.image),
            link: self.link@,
            kind: self.kind,
            name: self.name@,
            content: items_view(self.content@),
        }
    }
}

/// The fields of an RSS item that normalization reads, as plain values.
#[derive(Clone, Debug)]
pub struct RssEntry {
    pub title: Option<String>,
    pub link: Option<String>,
    pub description: Option<String>,
    pub content: Option<String>,
    pub guid: Option<String>,
    pub pub_date: Option<String>,
}

pub struct RssEntryView {
    pub title: Option<Seq<char>>,
    pub link: Option<Seq<char>>,
    pub description: Option<Seq<char>>,
    pub content: Option<Seq<char>>,
    pub guid: Option<Seq<char>>,
    pub pub_date: Option<Seq<char>>,
}

impl View for RssEntry {
    type V = RssEntryView;

    open spec fn view(&self) -> RssEntryView {
        RssEntryView {
            title: opt_view(self.title),
            link: opt_view(self.link),
            description: opt_view(self.description),
            content: opt_view(self.content),
            guid: opt_view(self.guid),
            pub_date: opt_view(self.pub_date),
        }
    }
}

/// The fields of an Atom entry that normalization reads, as plain values.
/// `links` are the hrefs of its links in order; instants are seconds since
/// the Unix epoch.
#[derive(Clone, Debug)]
pub struct AtomEntry {
    pub title: String,
    pub id: String,
    pub links: Vec<String>,
    pub content: Option<String>,
    pub summary: Option<String>,
    pub published: Option<i64>,
    pub updated: i64,
}

pub struct AtomEntryView {
    pub title: Seq<char>,
    pub id: Seq<char>,
    pub links: Seq<Seq<char>>,
    pub content: Option<Seq<char>>,
    pub summary: Option<Seq<char>>,
    pub published: Option<i64>,
    pub updated: i64,
}

impl View for AtomEntry {
    type V = AtomEntryView;

    open spec fn view(&self) -> AtomEntryView {
        AtomEntryView {
            title: self.title@,
            id: self.id@,
            links: self.links@.map_values(|s: String| s@),
            content: opt_view(self.content),
            summary: opt_view(self.summary),
            published: self.published,
            updated: self.updated,
        }
    }
}

/// What normalization reads of an RSS channel.
pub struct RssDoc {
    pub title: String,
    pub image: Option<String>,
    pub entries: Vec<RssEntry>,
}

pub struct RssDocView {
    pub title: Seq<char>,
    pub image: Option<Seq<char>>,
    pub entries: Seq<RssEntryView>,
}

pub open spec fn rss_entries_view(es: Seq<RssEntry>) -> Seq<RssEntryView> {
    es.map_values(|e: RssEntry| e@)
}

impl View for RssDoc {
    type V = RssDocView;

    open spec fn view(&self) -> RssDocView {
        RssDocView {
            title: self.title@,
            image: opt_view(self.image),
            entries: rss_entries_view(self.entries@),
        }
    }
}

/// What normalization reads of an Atom feed.
pub struct AtomDoc {
    pub title: String,
    pub icon: Option<String>,
    pub entries: Vec<AtomEntry>,
}

pub struct AtomDocView {
    pub title: Seq<char>,
    pub icon: Option<Seq<char>>,
    pub entries: Seq<AtomEntryView>,
}

pub open spec fn atom_entries_view(es: Seq<AtomEntry>) -> Seq<AtomEntryView> {
    es.map_values(|e: AtomEntry| e@)
}

impl View for AtomDoc {
    type V = AtomDocView;

    open spec fn view(&self) -> AtomDocView {
        AtomDocView {
            title: self.title@,
            icon: opt_view(self.icon),
            entries: atom_entries_view(self.entries@),
        }
    }
}

/// Copies an optional string.
pub fn copy_opt(o: &Option<String>) -> (r: Option<String>)
    ensures
        r == *o,
{
    match o {
        Some(s) => Some(s.clone()),
        None => None,
    }
}

} // verus!
