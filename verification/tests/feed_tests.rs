use hermes::feed::{
    finalise_subscribed_items, handle_feed_types, handle_item_types, parse_fetched_data,
    process_duplicates, process_entries, process_items, read_feed_for_tag, FeedType, ItemType,
};
use hermes::models::{NewFeed, NewItem};
use hermes::syndication::{AtomEntry, AtomFeed, RssItem};
use hermes::time::Timestamp;

const RSS: &str = r#"<?xml version="1.0" encoding="UTF-8"?>
<rss version="2.0" xmlns:content="http://purl.org/rss/1.0/modules/content/">
<channel>
  <title>News</title>
  <link>https://news.example.org/</link>
  <description>All the news</description>
  <item>
    <title>First</title>
    <link>https://news.example.org/1</link>
    <guid>news-1</guid>
    <description>one</description>
    <content:encoded>full one</content:encoded>
    <pubDate>Wed, 18 Feb 2015 23:16:09 GMT</pubDate>
  </item>
  <item>
    <title>Second</title>
    <link>https://news.example.org/2</link>
    <guid>news-2</guid>
  </item>
</channel>
</rss>"#;

const ATOM: &str = r#"<?xml version="1.0" encoding="utf-8"?>
<feed xmlns="http://www.w3.org/2005/Atom">
  <title>Blog</title>
  <subtitle>Notes</subtitle>
  <link href="https://blog.example.org/"/>
  <id>urn:blog</id>
  <updated>2020-01-02T03:04:05Z</updated>
  <entry>
    <title>Post</title>
    <link href="https://blog.example.org/post"/>
    <id>urn:post</id>
    <updated>2021-06-01T10:00:00Z</updated>
    <published>2020-01-02T03:04:05Z</published>
    <summary>short</summary>
    <content type="html">long</content>
  </entry>
</feed>"#;

fn item(guid: &str, published: Option<i64>) -> NewItem {
    NewItem {
        guid: guid.to_string(),
        link: format!("https://example.org/{}", guid),
        title: guid.to_uppercase(),
        summary: None,
        content: None,
        published_at: published.map(|s| Timestamp { secs: s, nanos: 0 }),
        updated_at: None,
        feed_id: 1,
    }
}

#[test]
fn finalise_delivers_every_item_to_every_subscriber() {
    let rows = finalise_subscribed_items(vec![10, 20], vec![1, 2]);
    assert_eq!(rows, vec![(1, 10, false), (1, 20, false), (2, 10, false), (2, 20, false)]);
}

#[test]
fn finalise_with_nothing_to_deliver() {
    assert_eq!(finalise_subscribed_items(vec![], vec![1, 2]), vec![]);
    assert_eq!(finalise_subscribed_items(vec![5], vec![]), vec![]);
}

#[test]
fn process_duplicates_without_stored_items() {
    let (fresh, changed) = process_duplicates(vec![item("a", None), item("b", Some(1))], None);
    let fresh = fresh.expect("all new");
    assert_eq!(fresh.iter().map(|i| i.guid.as_str()).collect::<Vec<_>>(), vec!["a", "b"]);
    assert!(changed.is_empty());
}

#[test]
fn process_duplicates_splits_new_changed_and_unchanged() {
    let t = |s: i64| Some(Timestamp { secs: s, nanos: 0 });
    let dupes = vec![
        (100, "b".to_string(), t(1)),
        (101, "c".to_string(), t(2)),
        (102, "c".to_string(), t(9)),
    ];
    let items = vec![item("a", None), item("b", Some(1)), item("c", Some(3)), item("d", None)];
    let (fresh, changed) = process_duplicates(items, Some(dupes));
    let fresh = fresh.expect("a and d are new");
    assert_eq!(fresh.iter().map(|i| i.guid.as_str()).collect::<Vec<_>>(), vec!["a", "d"]);
    assert_eq!(changed.len(), 1);
    assert_eq!(changed[0].0, 101);
    assert_eq!(changed[0].1.guid, "c");
}

#[test]
fn process_duplicates_with_nothing_new() {
    let dupes = vec![(7, "x".to_string(), None)];
    let (fresh, changed) = process_duplicates(vec![item("x", Some(4))], Some(dupes));
    assert!(fresh.is_none());
    assert_eq!(changed.len(), 1);
    assert_eq!(changed[0].0, 7);
}

#[test]
fn parse_fetched_data_reads_rss() {
    match parse_fetched_data(RSS.as_bytes()) {
        Ok(FeedType::RSS(channel)) => {
            assert_eq!(channel.title, "News");
            assert_eq!(channel.link, "https://news.example.org/");
            assert_eq!(channel.description, "All the news");
            assert_eq!(channel.items.len(), 2);
            assert_eq!(channel.items[0].guid.as_deref(), Some("news-1"));
            assert_eq!(channel.items[0].content.as_deref(), Some("full one"));
            assert_eq!(channel.items[1].pub_date, None);
        }
        other => panic!("expected RSS, got {:?}", other),
    }
}

#[test]
fn parse_fetched_data_reads_atom() {
    match parse_fetched_data(ATOM.as_bytes()) {
        Ok(FeedType::Atom(feed)) => {
            assert_eq!(feed.title, "Blog");
            assert_eq!(feed.link.as_deref(), Some("https://blog.example.org/"));
            assert_eq!(feed.subtitle.as_deref(), Some("Notes"));
            assert_eq!(feed.entries.len(), 1);
            let e = &feed.entries[0];
            assert_eq!(e.id, "urn:post");
            assert_eq!(e.link.as_deref(), Some("https://blog.example.org/post"));
            assert_eq!(e.published.as_deref(), Some("2020-01-02 03:04:05 +00:00"));
            assert_eq!(e.updated, "2021-06-01 10:00:00 +00:00");
            assert_eq!(e.content.as_deref(), Some("long"));
        }
        other => panic!("expected Atom, got {:?}", other),
    }
}

#[test]
fn parse_fetched_data_refuses_other_documents() {
    assert!(parse_fetched_data(b"<html><body>no feed</body></html>").is_err());
    assert!(parse_fetched_data(b"").is_err());
    assert!(parse_fetched_data(b"<rss><channel><title>x</title>").is_err());
}

#[test]
fn read_feed_for_tag_ignores_other_names() {
    assert!(read_feed_for_tag("html", RSS).is_none());
    assert!(matches!(read_feed_for_tag("rss", RSS), Some(Ok(FeedType::RSS(_)))));
    assert!(matches!(read_feed_for_tag("feed", RSS), Some(Err(()))));
}

#[test]
fn handle_feed_types_for_rss() {
    let parsed = parse_fetched_data(RSS.as_bytes()).unwrap();
    let (feed, items) = handle_feed_types(parsed, "https://news.example.org/rss").unwrap();
    assert_eq!(feed.title, "News");
    assert_eq!(feed.site_link, "https://news.example.org/");
    assert_eq!(feed.feed_link, "https://news.example.org/rss");
    assert_eq!(feed.description.as_deref(), Some("All the news"));
    let new_items = handle_item_types(items, 4);
    assert_eq!(new_items.len(), 2);
    assert_eq!(new_items[0].guid, "news-1");
    assert_eq!(new_items[0].title, "First");
    assert_eq!(new_items[0].link, "https://news.example.org/1");
    assert_eq!(new_items[0].summary.as_deref(), Some("one"));
    assert_eq!(new_items[0].published_at, Some(Timestamp { secs: 1424301369, nanos: 0 }));
    assert_eq!(new_items[0].updated_at, new_items[0].published_at);
    assert_eq!(new_items[0].feed_id, 4);
    assert_eq!(new_items[1].published_at, None);
}

#[test]
fn handle_feed_types_for_atom() {
    let parsed = parse_fetched_data(ATOM.as_bytes()).unwrap();
    let (feed, items) = handle_feed_types(parsed, "https://blog.example.org/atom").unwrap();
    assert_eq!(feed.title, "Blog");
    assert_eq!(feed.site_link, "https://blog.example.org/");
    assert_eq!(feed.description.as_deref(), Some("Notes"));
    let new_items = handle_item_types(items, 9);
    assert_eq!(new_items.len(), 1);
    assert_eq!(new_items[0].guid, "urn:post");
    assert_eq!(new_items[0].link, "https://blog.example.org/post");
    assert_eq!(new_items[0].summary.as_deref(), Some("short"));
    assert_eq!(new_items[0].updated_at, Some(Timestamp { secs: 1622541600, nanos: 0 }));
    assert_eq!(new_items[0].published_at, Some(Timestamp { secs: 1577934245, nanos: 0 }));
    assert_eq!(new_items[0].feed_id, 9);
}

#[test]
fn process_items_and_entries_keep_order() {
    let rss = vec![
        RssItem {
            guid: Some("g".into()),
            title: Some("t".into()),
            link: Some("l".into()),
            description: None,
            content: None,
            pub_date: Some("2012-12-12T12:12:12Z".into()),
        },
    ];
    let out = process_items(rss, &3);
    assert_eq!(out[0].published_at, Some(Timestamp { secs: 1355314332, nanos: 0 }));
    let entries = vec![
        AtomEntry {
            id: "e1".into(),
            title: "one".into(),
            link: Some("a".into()),
            summary: None,
            content: None,
            published: None,
            updated: "2012-12-12T12:12:12.000000002Z".into(),
        },
    ];
    let out = process_entries(entries, &5);
    assert_eq!(out[0].link, "a");
    assert_eq!(out[0].updated_at, Some(Timestamp { secs: 1355314332, nanos: 2 }));
    assert_eq!(out[0].published_at, None);
}

#[test]
fn new_feed_from_atom_takes_the_link() {
    let feed = AtomFeed { title: "T".into(), link: Some("x".into()), subtitle: None, entries: vec![] };
    let nf = NewFeed::from_atom(&feed, "u");
    assert_eq!(nf.site_link, "x");
    assert_eq!(nf.feed_link, "u");
    assert_eq!(nf.description, None);
    let empty = ItemType::Entry(vec![]);
    assert!(handle_item_types(empty, 1).is_empty());
}
