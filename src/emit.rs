use crate::atom::{build_atom_feed, AtomContent, AtomEntry, AtomFeed, AtomLink, AtomPerson};
use crate::error::Error;
use crate::model::{Entry, Feed};
use crate::timestamp::{local_now, Timestamp};
use vstd::prelude::*;

verus! {

/// Relies on atom_syndication's `Link::set_href` and `Link::set_rel` to
/// record the link's target and relation.
#[verifier::external_body]
fn atom_link(l: &AtomLink) -> atom_syndication::Link {
    let mut link = atom_syndication::Link::default();
    link.set_href(l.href.clone());
    link.set_rel(l.rel.clone());
    link
}

/// Relies on atom_syndication's `Content::set_content_type` and
/// `Content::set_value` to record the type tag and the embedded value.
#[verifier::external_body]
fn atom_content(c: &AtomContent) -> atom_syndication::Content {
    let mut content = atom_syndication::Content::default();
    content.set_content_type(c.content_type.clone());
    content.set_value(c.value.clone());
    content
}

/// Relies on atom_syndication's `PersonBuilder` to make a person of a name,
/// an email and a URI. `Person` is built with `#[builder(default)]`, so its
/// `build` has no field left to miss and never fails.
#[verifier::external_body]
fn atom_person(p: &AtomPerson) -> (r: Result<atom_syndication::Person, String>)
    ensures
        r is Ok,
{
    atom_syndication::PersonBuilder::default()
        .name(p.name.clone())
        .email(p.email.clone())
        .uri(p.uri.clone())
        .build()
}

/// Relies on atom_syndication's `EntryBuilder` to make an entry of a title,
/// an id, the two times, its authors and its content. `Entry` is built with
/// `#[builder(default)]`, so its `build` never fails.
#[verifier::external_body]
fn atom_entry(
    e: &AtomEntry,
    authors: Vec<atom_syndication::Person>,
    content: atom_syndication::Content,
) -> (r: Result<atom_syndication::Entry, String>)
    ensures
        r is Ok,
{
    atom_syndication::EntryBuilder::default()
        .title(e.title.clone())
        .id(e.id.clone())
        .published(e.published.clone())
        .updated(e.updated.clone())
        .authors(authors)
        .content(content)
        .build()
}

/// Relies on atom_syndication's `FeedBuilder` to make a feed of an id, a
/// title, its links, its entries and its update time. `Feed` is built with
/// `#[builder(default)]`, so its `build` never fails.
#[verifier::external_body]
fn atom_feed(
    f: &AtomFeed,
    links: Vec<atom_syndication::Link>,
    entries: Vec<atom_syndication::Entry>,
) -> (r: Result<atom_syndication::Feed, String>)
    ensures
        r is Ok,
{
    atom_syndication::FeedBuilder::default()
        .id(f.id.clone())
        .title(f.title.clone())
        .links(links)
        .entries(entries)
        .updated(f.updated.clone())
        .build()
}

/// Relies on atom_syndication's `Feed::write_to` to render the feed as XML
/// into a buffer. It fails only where the writer does, and writing to a
/// `Vec` does not fail.
#[verifier::external_body]
fn atom_xml(feed: &atom_syndication::Feed) -> (r: Result<Vec<u8>, String>)
    ensures
        r is Ok,
{
    match feed.write_to(Vec::new()) {
        Ok(bytes) => Ok(bytes),
        Err(e) => Err(format!("{}", e)),
    }
}

fn downstream<T>(r: Result<T, String>) -> (out: Result<T, Error>)
    ensures
        r is Ok <==> out is Ok,
        r is Ok ==> out->Ok_0 == r->Ok_0,
        r is Err ==> out->Err_0 == (Error::Atom { error: r->Err_0 }),
{
    match r {
        Ok(v) => Ok(v),
        Err(e) => Err(Error::Atom { error: e }),
    }
}

/// Hands one mapped entry to the emitter, with its author as the only one.
fn emit_entry(e: &AtomEntry) -> (r: Result<atom_syndication::Entry, Error>)
    ensures
        r is Ok,
{
    let person = downstream(atom_person(&e.author))?;
    let content = atom_content(&e.content);
    downstream(atom_entry(e, vec![person], content))
}

/// Renders the tree as an Atom XML document: every entry and every link of
/// the tree is handed to the emitter, in order. The emitter does not fail.
pub fn render_atom(tree: &AtomFeed) -> (r: Result<Vec<u8>, Error>)
    ensures
        r is Ok,
{
    let mut entries: Vec<atom_syndication::Entry> = Vec::new();
    let mut i: usize = 0;
    while i < tree.entries.len()
        invariant
            i <= tree.entries@.len(),
            entries@.len() == i,
        decreases tree.entries@.len() - i,
    {
        let e = emit_entry(&tree.entries[i])?;
        entries.push(e);
        i = i + 1;
    }
    let mut links: Vec<atom_syndication::Link> = Vec::new();
    let mut j: usize = 0;
    while j < tree.links.len()
        invariant
            j <= tree.links@.len(),
            links@.len() == j,
        decreases tree.links@.len() - j,
    {
        links.push(atom_link(&tree.links[j]));
        j = j + 1;
    }
    let feed = downstream(atom_feed(tree, links, entries))?;
    downstream(atom_xml(&feed))
}

/// Maps the feed and its entries, with `now` as the update time where the
/// feed has none, and renders the result.
pub fn render_atom_feed_at(feed: Feed, entries: Vec<Entry>, now: Timestamp) -> (r: Result<
    Vec<u8>,
    Error,
>)
    requires
        feed.wf(),
        now.wf(),
        forall|i: int| 0 <= i < entries@.len() ==> (#[trigger] entries@[i]).wf(),
    ensures
        r is Ok,
{
    let tree = build_atom_feed(&feed, &entries, now);
    render_atom(&tree)
}

/// Maps the feed and its entries and renders the result; where the feed has
/// no update time, the local clock gives it.
pub fn render_atom_feed(feed: Feed, entries: Vec<Entry>) -> (r: Result<Vec<u8>, Error>)
    requires
        feed.wf(),
        forall|i: int| 0 <= i < entries@.len() ==> (#[trigger] entries@[i]).wf(),
    ensures
        feed.date_updated is Some ==> r is Ok,
        r is Err ==> feed.date_updated is None && r->Err_0 is Error,
        r is Err ==> r->Err_0.is_validation("the local clock gives a time out of range"@),
{
    let now = match feed.date_updated {
        Some(d) => d,
        None => local_now(),
    };
    if !now.is_valid() {
        return Err(Error::Error { txt: "the local clock gives a time out of range".to_owned() });
    }
    render_atom_feed_at(feed, entries, now)
}

} // verus!
