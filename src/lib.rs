//! Assembles Atom 1.0 feeds from a feed description and its entries, and
//! renders them through the `atom_syndication` crate.

mod atom;
mod emit;
mod error;
mod model;
mod outside;
mod timestamp;

pub use atom::{
    build_atom_feed, entry_maps_to, feed_maps_to, lemma_empty_entries, lemma_entry_fields,
    lemma_entry_order, lemma_feed_fields, lemma_feed_links, make_atom_entries, make_atom_entry,
    make_atom_feed, resolve, AtomContent, AtomEntry, AtomFeed, AtomLink, AtomPerson,
};
pub use emit::{render_atom_feed, render_atom_feed_at};
pub use error::Error;
pub use model::{Entry, EntryBuilder, Feed, FeedBuilder};
pub use timestamp::{days_in_month, is_leap_year, rfc3339_of, Timestamp};
