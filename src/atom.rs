use crate::model::{Entry, Feed};
use crate::timestamp::{rfc3339_of, Timestamp};
use vstd::prelude::*;

verus! {

/// A `<link>` of the feed.
#[derive(Debug)]
pub struct AtomLink {
    pub href: String,
    pub rel: String,
}

/// The `<author>` of an entry.
#[derive(Debug)]
pub struct AtomPerson {
    pub name: String,
    pub email: String,
    pub uri: String,
}

/// The `<content>` of an entry: a type tag and the value embedded as it is.
#[derive(Debug)]
pub struct AtomContent {
    pub content_type: String,
    pub value: String,
}

/// One `<entry>` as it is handed to the emitter.
#[derive(Debug)]
pub struct AtomEntry {
    pub title: String,
    pub id: String,
    pub published: String,
    pub updated: String,
    pub author: AtomPerson,
    pub content: AtomContent,
}

/// The `<feed>` as it is handed to the emitter.
#[derive(Debug)]
pub struct AtomFeed {
    pub id: String,
    pub title: String,
    pub links: Vec<AtomLink>,
    pub entries: Vec<AtomEntry>,
    pub updated: String,
}

/// An entry's own value where it has one, else the feed's.
pub open spec fn resolve(own: Option<String>, inherited: String) -> Seq<char> {
    match own {
        Some(v) => v@,
        None => inherited@,
    }
}

/// `r` is what `entry`, inside `feed`, maps to.
pub open spec fn entry_maps_to(feed: Feed, entry: Entry, r: AtomEntry) -> bool {
    &&& r.title@ == entry.title@
    &&& r.id@ == entry.url@
    &&& r.published@ == rfc3339_of(entry.date)
    &&& r.updated@ == match entry.date_updated {
        Some(d) => rfc3339_of(d),
        None => rfc3339_of(entry.date),
    }
    &&& r.author.name@ == resolve(entry.author, feed.author)
    &&& r.author.email@ == resolve(entry.email, feed.email)
    &&& r.author.uri@ == feed.home_url@
    &&& r.content.content_type@ == "xhtml"@
    &&& r.content.value@ == entry.content@
}

/// `r` is the feed that `feed` maps to around the mapped `entries`, with
/// `now` standing in for a missing update time.
pub open spec fn feed_maps_to(
    feed: Feed,
    entries: Seq<Entry>,
    now: Timestamp,
    r: AtomFeed,
) -> bool {
    &&& r.id@ == feed.id@
    &&& r.title@ == feed.title@
    &&& r.links@.len() == 2
    &&& r.links@[0].href@ == feed.feed_url@
    &&& r.links@[0].rel@ == "self"@
    &&& r.links@[1].href@ == feed.home_url@
    &&& r.links@[1].rel@ == "alternate"@
    &&& r.updated@ == match feed.date_updated {
        Some(d) => rfc3339_of(d),
        None => rfc3339_of(now),
    }
    &&& r.entries@.len() == entries.len()
    &&& forall|i: int|
        0 <= i < entries.len() ==> #[trigger] entry_maps_to(feed, entries[i], r.entries@[i])
}

fn copy_string(s: &String) -> (r: String)
    ensures
        r@ == s@,
{
    s.clone()
}

fn resolve_string(own: &Option<String>, inherited: &String) -> (r: String)
    ensures
        r@ == resolve(*own, *inherited),
{
    match own {
        Some(v) => copy_string(v),
        None => copy_string(inherited),
    }
}

/// Maps one entry, taking the author's name and email from the feed where
/// the entry has none and the author's URI from the feed's home URL.
pub fn make_atom_entry(feed: &Feed, entry: &Entry) -> (r: AtomEntry)
    requires
        entry.wf(),
    ensures
        entry_maps_to(*feed, *entry, r),
{
    let published = entry.date.to_rfc3339();
    let updated = match &entry.date_updated {
        Some(d) => d.to_rfc3339(),
        None => copy_string(&published),
    };
    let author = AtomPerson {
        name: resolve_string(&entry.author, &feed.author),
        email: resolve_string(&entry.email, &feed.email),
        uri: copy_string(&feed.home_url),
    };
    let content = AtomContent { content_type: "xhtml".to_owned(), value: copy_string(&entry.content) };
    AtomEntry {
        title: copy_string(&entry.title),
        id: copy_string(&entry.url),
        published,
        updated,
        author,
        content,
    }
}

/// Maps the entries one by one, in the order given.
pub fn make_atom_entries(feed: &Feed, entries: &Vec<Entry>) -> (r: Vec<AtomEntry>)
    requires
        forall|i: int| 0 <= i < entries@.len() ==> (#[trigger] entries@[i]).wf(),
    ensures
        r@.len() == entries@.len(),
        forall|i: int| 0 <= i < entries@.len() ==> #[trigger] entry_maps_to(*feed, entries@[i], r@[i]),
{
    let mut r: Vec<AtomEntry> = Vec::new();
    let mut i: usize = 0;
    while i < entries.len()
        invariant
            i <= entries@.len(),
            r@.len() == i,
            forall|k: int| 0 <= k < entries@.len() ==> (#[trigger] entries@[k]).wf(),
            forall|k: int| 0 <= k < i ==> #[trigger] entry_maps_to(*feed, entries@[k], r@[k]),
        decreases entries@.len() - i,
    {
        let e = make_atom_entry(feed, &entries[i]);
        r.push(e);
        i = i + 1;
    }
    r
}

/// Wraps the mapped entries in the feed: links to the feed itself and to the
/// home page, in that order, and the update time, `now` where the feed has
/// none.
pub fn make_atom_feed(feed: &Feed, entries: Vec<AtomEntry>, now: Timestamp) -> (r: AtomFeed)
    requires
        feed.wf(),
        now.wf(),
    ensures
        r.id@ == feed.id@,
        r.title@ == feed.title@,
        r.links@.len() == 2,
        r.links@[0].href@ == feed.feed_url@,
        r.links@[0].rel@ == "self"@,
        r.links@[1].href@ == feed.home_url@,
        r.links@[1].rel@ == "alternate"@,
        r.updated@ == match feed.date_updated {
            Some(d) => rfc3339_of(d),
            None => rfc3339_of(now),
        },
        r.entries@ == entries@,
{
    let self_link = AtomLink { href: copy_string(&feed.feed_url), rel: "self".to_owned() };
    let home_link = AtomLink { href: copy_string(&feed.home_url), rel: "alternate".to_owned() };
    let updated = match &feed.date_updated {
        Some(d) => d.to_rfc3339(),
        None => now.to_rfc3339(),
    };
    AtomFeed {
        id: copy_string(&feed.id),
        title: copy_string(&feed.title),
        links: vec![self_link, home_link],
        entries,
        updated,
    }
}

/// Maps a feed and its entries to the tree that the emitter renders.
pub fn build_atom_feed(feed: &Feed, entries: &Vec<Entry>, now: Timestamp) -> (r: AtomFeed)
    requires
        feed.wf(),
        now.wf(),
        forall|i: int| 0 <= i < entries@.len() ==> (#[trigger] entries@[i]).wf(),
    ensures
        feed_maps_to(*feed, entries@, now, r),
{
    let mapped = make_atom_entries(feed, entries);
    make_atom_feed(feed, mapped, now)
}

/// The feed's id and title are the feed element's, its two URLs the links',
/// and its author and email are those of every entry that does not set its
/// own.
pub proof fn lemma_feed_fields(feed: Feed, entries: Seq<Entry>, now: Timestamp, r: AtomFeed, i: int)
    requires
        feed_maps_to(feed, entries, now, r),
        0 <= i < entries.len(),
    ensures
        r.id@ == feed.id@,
        r.title@ == feed.title@,
        r.links@[0].href@ == feed.feed_url@,
        r.links@[1].href@ == feed.home_url@,
        entries[i].author is None ==> r.entries@[i].author.name@ == feed.author@,
        entries[i].email is None ==> r.entries@[i].author.email@ == feed.email@,
{
    assert(entry_maps_to(feed, entries[i], r.entries@[i]));
}

/// There are exactly two links: first the feed's own URL with `rel="self"`,
/// then the home URL.
pub proof fn lemma_feed_links(feed: Feed, entries: Seq<Entry>, now: Timestamp, r: AtomFeed)
    requires
        feed_maps_to(feed, entries, now, r),
    ensures
        r.links@.len() == 2,
        r.links@[0].rel@ == "self"@ && r.links@[0].href@ == feed.feed_url@,
        r.links@[1].href@ == feed.home_url@,
{
}

/// Each entry's id is its URL, it is published at its date, updated at its
/// update time or else at its date, and its author is its own name and
/// email, or else the feed's, with the feed's home URL as URI.
pub proof fn lemma_entry_fields(feed: Feed, entries: Seq<Entry>, now: Timestamp, r: AtomFeed, i: int)
    requires
        feed_maps_to(feed, entries, now, r),
        0 <= i < entries.len(),
    ensures
        r.entries@[i].id@ == entries[i].url@,
        r.entries@[i].published@ == rfc3339_of(entries[i].date),
        entries[i].date_updated is Some ==> r.entries@[i].updated@ == rfc3339_of(
            entries[i].date_updated->Some_0,
        ),
        entries[i].date_updated is None ==> r.entries@[i].updated@ == r.entries@[i].published@,
        r.entries@[i].author.name@ == resolve(entries[i].author, feed.author),
        r.entries@[i].author.email@ == resolve(entries[i].email, feed.email),
        r.entries@[i].author.uri@ == feed.home_url@,
{
    assert(entry_maps_to(feed, entries[i], r.entries@[i]));
}

/// Entries come out in the order they went in: the one at position `i`
/// carries the id of the `i`-th entry given.
pub proof fn lemma_entry_order(feed: Feed, entries: Seq<Entry>, now: Timestamp, r: AtomFeed)
    requires
        feed_maps_to(feed, entries, now, r),
    ensures
        r.entries@.len() == entries.len(),
        forall|i: int| 0 <= i < entries.len() ==> #[trigger] r.entries@[i].id@ == entries[i].url@,
{
    assert forall|i: int| 0 <= i < entries.len() implies #[trigger] r.entries@[i].id@
        == entries[i].url@ by {
        assert(entry_maps_to(feed, entries[i], r.entries@[i]));
    }
}

/// A feed without entries still has its id, title, links and update time,
/// and no entry.
pub proof fn lemma_empty_entries(feed: Feed, now: Timestamp, r: AtomFeed)
    requires
        feed_maps_to(feed, Seq::empty(), now, r),
    ensures
        r.entries@.len() == 0,
        r.links@.len() == 2,
        r.id@ == feed.id@,
        feed.date_updated is None ==> r.updated@ == rfc3339_of(now),
{
}

} // verus!
