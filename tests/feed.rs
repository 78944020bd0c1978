use quick_atom::{
    build_atom_feed, make_atom_entry, render_atom_feed, render_atom_feed_at, Entry, EntryBuilder,
    Error, Feed, FeedBuilder, Timestamp,
};

fn ts(year: i32, month: u32, day: u32, hour: u32, minute: u32, second: u32) -> Timestamp {
    Timestamp { year, month, day, hour, minute, second, nanosecond: 0, offset: 0 }
}

fn feed_builder() -> FeedBuilder {
    FeedBuilder::new()
        .id("urn:example:1".to_string())
        .title("T".to_string())
        .home_url("https://ex.org/".to_string())
        .feed_url("https://ex.org/atom.xml".to_string())
        .author("A".to_string())
        .email("a@ex.org".to_string())
        .date_updated(ts(2020, 1, 2, 3, 4, 5))
}

fn minimal_feed() -> Feed {
    feed_builder().build().unwrap()
}

fn entry_builder(url: &str) -> EntryBuilder {
    EntryBuilder::new()
        .title("E".to_string())
        .url(url.to_string())
        .content("<p>hi</p>".to_string())
        .date(ts(2020, 1, 1, 0, 0, 0))
}

fn render(feed: Feed, entries: Vec<Entry>) -> String {
    let bytes = render_atom_feed_at(feed, entries, ts(2021, 6, 7, 8, 9, 10)).unwrap();
    String::from_utf8(bytes).unwrap()
}

fn validation_text(e: Error) -> String {
    match e {
        Error::Error { txt } => txt,
        other => panic!("not a validation error: {:?}", other),
    }
}

#[test]
fn minimal_feed_has_id_updated_links_and_no_entry() {
    let xml = render(minimal_feed(), vec![]);
    assert!(xml.contains("<id>urn:example:1</id>"));
    assert!(xml.contains("<title>T</title>"));
    assert!(xml.contains("<updated>2020-01-02T03:04:05+00:00</updated>"));
    assert!(xml.contains("<link href=\"https://ex.org/atom.xml\" rel=\"self\"/>"));
    assert!(xml.contains("<link href=\"https://ex.org/\" rel=\"alternate\"/>"));
    assert!(!xml.contains("<entry>"));
    assert!(xml.contains("http://www.w3.org/2005/Atom"));
}

#[test]
fn self_link_comes_before_home_link() {
    let xml = render(minimal_feed(), vec![]);
    let own = xml.find("rel=\"self\"").unwrap();
    let home = xml.find("rel=\"alternate\"").unwrap();
    assert!(own < home);
    assert_eq!(xml.matches("<link ").count(), 2);
}

#[test]
fn single_entry_with_all_fields() {
    let entry = entry_builder("https://ex.org/e").build().unwrap();
    let xml = render(minimal_feed(), vec![entry]);
    assert_eq!(xml.matches("<entry>").count(), 1);
    assert!(xml.contains("<id>https://ex.org/e</id>"));
    assert!(xml.contains("<published>2020-01-01T00:00:00+00:00</published>"));
    assert!(xml.contains("<updated>2020-01-01T00:00:00+00:00</updated>"));
    assert!(xml.contains("<content type=\"xhtml\"><p>hi</p></content>"));
    assert!(xml.contains("<name>A</name>"));
    assert!(xml.contains("<email>a@ex.org</email>"));
    assert!(xml.contains("<uri>https://ex.org/</uri>"));
}

#[test]
fn entry_author_overrides_feed_author() {
    let entry = entry_builder("https://ex.org/e")
        .author("B".to_string())
        .email("b@ex.org".to_string())
        .build()
        .unwrap();
    let xml = render(minimal_feed(), vec![entry]);
    assert!(xml.contains("<name>B</name>"));
    assert!(xml.contains("<email>b@ex.org</email>"));
    assert!(xml.contains("<uri>https://ex.org/</uri>"));
    assert!(!xml.contains("<name>A</name>"));
}

#[test]
fn feed_without_id_is_rejected() {
    let b = FeedBuilder::new()
        .title("T".to_string())
        .home_url("https://ex.org/".to_string())
        .feed_url("https://ex.org/atom.xml".to_string())
        .author("A".to_string())
        .email("a@ex.org".to_string());
    let txt = validation_text(b.build().unwrap_err());
    assert_eq!(txt, "Feed id is mandatory");
    assert!(txt.contains("id"));
}

#[test]
fn feed_fields_are_checked_in_order() {
    assert_eq!(validation_text(FeedBuilder::new().build().unwrap_err()), "Feed id is mandatory");
    let b = FeedBuilder::new().id("i".to_string());
    assert_eq!(validation_text(b.build().unwrap_err()), "Feed title is mandatory");
    let b = FeedBuilder::new().id("i".to_string()).title("t".to_string());
    assert_eq!(validation_text(b.build().unwrap_err()), "Feed home URL is mandatory");
    let b = FeedBuilder::new()
        .id("i".to_string())
        .title("t".to_string())
        .home_url("h".to_string());
    assert_eq!(validation_text(b.build().unwrap_err()), "Feed URL is mandatory");
    let b = FeedBuilder::new()
        .id("i".to_string())
        .title("t".to_string())
        .home_url("h".to_string())
        .feed_url("f".to_string());
    assert_eq!(validation_text(b.build().unwrap_err()), "Feed author is mandatory");
    let b = FeedBuilder::new()
        .id("i".to_string())
        .title("t".to_string())
        .home_url("h".to_string())
        .feed_url("f".to_string())
        .author("a".to_string());
    assert_eq!(validation_text(b.build().unwrap_err()), "Feed email is mandatory");
}

#[test]
fn entry_fields_are_checked_in_order() {
    assert_eq!(validation_text(EntryBuilder::new().build().unwrap_err()), "Entry title is mandatory");
    let b = EntryBuilder::new().title("t".to_string());
    assert_eq!(validation_text(b.build().unwrap_err()), "Entry url is mandatory");
    let b = EntryBuilder::new().title("t".to_string()).url("u".to_string());
    assert_eq!(validation_text(b.build().unwrap_err()), "Entry content is mandatory");
    let b = EntryBuilder::new()
        .title("t".to_string())
        .url("u".to_string())
        .content("c".to_string());
    assert_eq!(validation_text(b.build().unwrap_err()), "Entry date is mandatory");
}

#[test]
fn empty_strings_count_as_present() {
    let feed = FeedBuilder::new()
        .id(String::new())
        .title(String::new())
        .home_url(String::new())
        .feed_url(String::new())
        .author(String::new())
        .email(String::new())
        .build()
        .unwrap();
    assert_eq!(feed.id, "");
    assert_eq!(feed.date_updated, None);
}

#[test]
fn two_entries_keep_their_order() {
    let a = entry_builder("a").build().unwrap();
    let b = entry_builder("b").build().unwrap();
    let xml = render(minimal_feed(), vec![a, b]);
    let first = xml.find("<id>a</id>").unwrap();
    let second = xml.find("<id>b</id>").unwrap();
    assert!(first < second);
    assert_eq!(xml.matches("<entry>").count(), 2);
}

#[test]
fn separate_update_time_is_kept() {
    let entry = entry_builder("https://ex.org/e")
        .date_updated(ts(2020, 2, 1, 0, 0, 0))
        .build()
        .unwrap();
    let xml = render(minimal_feed(), vec![entry]);
    assert!(xml.contains("<published>2020-01-01T00:00:00+00:00</published>"));
    assert!(xml.contains("<updated>2020-02-01T00:00:00+00:00</updated>"));
}

#[test]
fn missing_feed_update_time_takes_the_given_now() {
    let feed = FeedBuilder::new()
        .id("urn:x".to_string())
        .title("T".to_string())
        .home_url("h".to_string())
        .feed_url("f".to_string())
        .author("A".to_string())
        .email("e".to_string())
        .build()
        .unwrap();
    let xml = render(feed, vec![]);
    assert!(xml.contains("<updated>2021-06-07T08:09:10+00:00</updated>"));
}

#[test]
fn missing_feed_update_time_takes_the_clock() {
    let feed = FeedBuilder::new()
        .id("urn:x".to_string())
        .title("T".to_string())
        .home_url("h".to_string())
        .feed_url("f".to_string())
        .author("A".to_string())
        .email("e".to_string())
        .build()
        .unwrap();
    let xml = String::from_utf8(render_atom_feed(feed, vec![]).unwrap()).unwrap();
    let start = xml.find("<updated>").unwrap() + "<updated>".len();
    let end = xml.find("</updated>").unwrap();
    let stamp = &xml[start..end];
    assert!(stamp.len() >= 25);
    assert_eq!(&stamp[4..5], "-");
    assert_eq!(&stamp[10..11], "T");
    let year: i32 = stamp[0..4].parse().unwrap();
    assert!(year >= 2020);
}

#[test]
fn mapped_tree_follows_the_feed() {
    let feed = minimal_feed();
    let entries = vec![entry_builder("x").author("B".to_string()).build().unwrap()];
    let tree = build_atom_feed(&feed, &entries, ts(2021, 1, 1, 0, 0, 0));
    assert_eq!(tree.id, "urn:example:1");
    assert_eq!(tree.links.len(), 2);
    assert_eq!(tree.links[0].href, "https://ex.org/atom.xml");
    assert_eq!(tree.links[0].rel, "self");
    assert_eq!(tree.links[1].href, "https://ex.org/");
    assert_eq!(tree.updated, "2020-01-02T03:04:05+00:00");
    assert_eq!(tree.entries.len(), 1);
    assert_eq!(tree.entries[0].author.name, "B");
    assert_eq!(tree.entries[0].author.email, "a@ex.org");
    assert_eq!(tree.entries[0].author.uri, "https://ex.org/");
    assert_eq!(tree.entries[0].content.content_type, "xhtml");
}

#[test]
fn entry_mapping_copies_its_fields() {
    let feed = minimal_feed();
    let entry = entry_builder("https://ex.org/e").build().unwrap();
    let e = make_atom_entry(&feed, &entry);
    assert_eq!(e.title, "E");
    assert_eq!(e.id, "https://ex.org/e");
    assert_eq!(e.published, e.updated);
    assert_eq!(e.content.value, "<p>hi</p>");
}

#[test]
fn timestamps_render_as_rfc3339_with_their_offset() {
    assert_eq!(ts(2020, 1, 2, 3, 4, 5).to_rfc3339(), "2020-01-02T03:04:05+00:00");
    let t = Timestamp { offset: 3600, ..ts(2020, 2, 29, 23, 59, 59) };
    assert_eq!(t.to_rfc3339(), "2020-02-29T23:59:59+01:00");
    let t = Timestamp { offset: -5400, nanosecond: 500_000_000, ..ts(1999, 12, 31, 0, 0, 0) };
    assert_eq!(t.to_rfc3339(), "1999-12-31T00:00:00.500-01:30");
}

#[test]
fn timestamp_validity() {
    assert!(ts(2020, 2, 29, 0, 0, 0).is_valid());
    assert!(!ts(2019, 2, 29, 0, 0, 0).is_valid());
    assert!(!ts(2000, 4, 31, 0, 0, 0).is_valid());
    assert!(ts(2000, 2, 29, 0, 0, 0).is_valid());
    assert!(!ts(1900, 2, 29, 0, 0, 0).is_valid());
    assert!(!ts(2020, 13, 1, 0, 0, 0).is_valid());
    assert!(!ts(2020, 1, 1, 24, 0, 0).is_valid());
    assert!(!Timestamp { offset: 86_400, ..ts(2020, 1, 1, 0, 0, 0) }.is_valid());
    assert!(!ts(10_000, 1, 1, 0, 0, 0).is_valid());
}

#[test]
fn errors_convert_from_text_and_io() {
    let e: Error = "boom".into();
    assert_eq!(validation_text(e), "boom");
    let e: Error = String::from("bang").into();
    assert_eq!(validation_text(e), "bang");
    let e: Error = std::io::Error::new(std::io::ErrorKind::Other, "disk").into();
    assert!(matches!(e, Error::IO { .. }));
}
