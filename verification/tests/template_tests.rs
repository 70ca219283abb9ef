use hermes::models::{Feed, Item};
use hermes::template::{FeedChannelTemplate, IndexTemplate};
use hermes::time::Timestamp;

fn feed() -> Feed {
    Feed {
        id: 1,
        title: "News".to_string(),
        description: None,
        site_link: "https://n/".to_string(),
        feed_link: "https://n/rss".to_string(),
        updated_at: Timestamp { secs: 0, nanos: 0 },
    }
}

#[test]
fn index_page_lists_the_feeds() {
    let feeds = vec![feed()];
    let page = IndexTemplate::new(&feeds);
    assert_eq!(page.channels.len(), 1);
    assert_eq!(page.channels[0].title, "News");
}

#[test]
fn feed_page_holds_feed_and_items() {
    let item = Item {
        id: 2,
        guid: "g".to_string(),
        link: "l".to_string(),
        title: "t".to_string(),
        summary: None,
        content: None,
        published_at: None,
        updated_at: None,
        feed_id: 1,
    };
    let data = (feed(), vec![item]);
    let page = FeedChannelTemplate::new(&data);
    assert_eq!(page.channel.id, 1);
    assert_eq!(page.items[0].guid, "g");
}
