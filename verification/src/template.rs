//! The data that the HTML pages are rendered from.
use vstd::prelude::*;

use crate::models::{Feed, Item};

verus! {

/// The frame that every page shares.
#[derive(Debug)]
pub struct BaseTemplate {}

/// The index page: the feeds.
#[derive(Debug)]
pub struct IndexTemplate<'a> {
    pub _parent: BaseTemplate,
    pub channels: &'a Vec<Feed>,
}

impl<'a> IndexTemplate<'a> {
    /// The index page for these feeds.
    pub fn new(channels: &'a Vec<Feed>) -> (r: IndexTemplate<'a>)
        ensures
            r.channels == channels,
    {
        IndexTemplate { _parent: BaseTemplate {  }, channels: channels }
    }
}

/// The page of one feed: the feed and its items.
#[derive(Debug)]
pub struct FeedChannelTemplate<'a> {
    pub _parent: BaseTemplate,
    pub channel: &'a Feed,
    pub items: &'a Vec<Item>,
}

impl<'a> FeedChannelTemplate<'a> {
    /// The page for a feed and its items.
    pub fn new(feed: &'a (Feed, Vec<Item>)) -> (r: FeedChannelTemplate<'a>)
        ensures
            *r.channel == feed.0,
            *r.items == feed.1,
    {
        let (channel, items) = feed;
        FeedChannelTemplate { _parent: BaseTemplate {  }, channel: channel, items: items }
    }
}

} // verus!
