use hermes::db::get_channel_urls_and_subscribers;

#[test]
fn subscribers_grouped_by_feed_in_row_order() {
    let feeds = vec![(1, "https://a/rss".to_string()), (2, "https://b/atom".to_string())];
    let subscribed = vec![(2, 10), (1, 11), (2, 12), (3, 13), (1, 10)];
    let res = get_channel_urls_and_subscribers(feeds, subscribed);
    assert_eq!(
        res,
        vec![(1, "https://a/rss".to_string(), vec![11, 10]), (2, "https://b/atom".to_string(), vec![10, 12])]
    );
}

#[test]
fn no_feeds_no_work() {
    assert!(get_channel_urls_and_subscribers(vec![], vec![(1, 1)]).is_empty());
}
