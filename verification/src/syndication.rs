//! RSS channels and Atom feeds as the reader reads them, and the XML tokens
//! that tell the two apart.
use vstd::prelude::*;
use vstd::string::StringSliceAdditionalSpecFns;

use atom_syndication::{Content, Feed, Text};


verus! {

/// The text of an optional string.
pub open spec fn text_of(s: Option<String>) -> Option<Seq<char>> {
    match s {
        Some(t) => Some(t@),
        None => None,
    }
}

/// A copy of an optional string.
pub fn copy_text(s: &Option<String>) -> (r: Option<String>)
    ensures
        text_of(r) == text_of(*s),
{
    match s {
        Some(t) => Some(t.clone()),
        None => None,
    }
}

/// An item of an RSS channel: the parts the reader keeps.
#[derive(Debug)]
pub struct RssItem {
    pub guid: Option<String>,
    pub title: Option<String>,
    pub link: Option<String>,
    pub description: Option<String>,
    pub content: Option<String>,
    pub pub_date: Option<String>,
}

/// The text of an RSS item.
pub struct RssItemView {
    pub guid: Option<Seq<char>>,
    pub title: Option<Seq<char>>,
    pub link: Option<Seq<char>>,
    pub description: Option<Seq<char>>,
    pub content: Option<Seq<char>>,
    pub pub_date: Option<Seq<char>>,
}

impl View for RssItem {
    type V = RssItemView;

    open spec fn view(&self) -> RssItemView {
        RssItemView {
            guid: text_of(self.guid),
            title: text_of(self.title),
            link: text_of(self.link),
            description: text_of(self.description),
            content: text_of(self.content),
            pub_date: text_of(self.pub_date),
        }
    }
}

/// An RSS channel: the parts the reader keeps.
#[derive(Debug)]
pub struct RssChannel {
    pub title: String,
    pub link: String,
    pub description: String,
    pub items: Vec<RssItem>,
}

/// The text of an RSS channel.
pub struct RssChannelView {
    pub title: Seq<char>,
    pub link: Seq<char>,
    pub description: Seq<char>,
    pub items: Seq<RssItemView>,
}

impl View for RssChannel {
    type V = RssChannelView;

    open spec fn view(&self) -> RssChannelView {
        RssChannelView {
            title: self.title@,
            link: self.link@,
            description: self.description@,
            items: self.items@.map_values(|i: RssItem| i@),
        }
    }
}

/// An entry of an Atom feed: the parts the reader keeps, with the target of
/// its first link and its dates as text.
#[derive(Debug)]
pub struct AtomEntry {
    pub id: String,
    pub title: String,
    pub link: Option<String>,
    pub summary: Option<String>,
    pub content: Option<String>,
    pub published: Option<String>,
    pub updated: String,
}

/// The text of an Atom entry.
pub struct AtomEntryView {
    pub id: Seq<char>,
    pub title: Seq<char>,
    pub link: Option<Seq<char>>,
    pub summary: Option<Seq<char>>,
    pub content: Option<Seq<char>>,
    pub published: Option<Seq<char>>,
    pub updated: Seq<char>,
}

impl View for AtomEntry {
    type V = AtomEntryView;

    open spec fn view(&self) -> AtomEntryView {
        AtomEntryView {
            id: self.id@,
            title: self.title@,
            link: text_of(self.link),
            summary: text_of(self.summary),
            content: text_of(self.content),
            published: text_of(self.published),
            updated: self.updated@,
        }
    }
}

/// The head of an Atom feed: its title, the target of its first link, and
/// its subtitle.
#[derive(Debug)]
pub struct AtomHead {
    pub title: String,
    pub link: Option<String>,
    pub subtitle: Option<String>,
}

/// An Atom feed: the parts the reader keeps.
#[derive(Debug)]
pub struct AtomFeed {
    pub title: String,
    pub link: Option<String>,
    pub subtitle: Option<String>,
    pub entries: Vec<AtomEntry>,
}

/// The text of an Atom feed.
pub struct AtomFeedView {
    pub title: Seq<char>,
    pub link: Option<Seq<char>>,
    pub subtitle: Option<Seq<char>>,
    pub entries: Seq<AtomEntryView>,
}

impl View for AtomFeed {
    type V = AtomFeedView;

    open spec fn view(&self) -> AtomFeedView {
        AtomFeedView {
            title: self.title@,
            link: text_of(self.link),
            subtitle: text_of(self.subtitle),
            entries: self.entries@.map_values(|e: AtomEntry| e@),
        }
    }
}

/// The channel that `rss::Channel::read_from` reads from the bytes, or
/// `None` where it refuses them.
pub uninterp spec fn rss_channel_of(data: Seq<u8>) -> Option<RssChannelView>;

/// The feed that `atom_syndication::Feed::read_from` reads from the bytes,
/// or `None` where it refuses them.
pub uninterp spec fn atom_feed_of(data: Seq<u8>) -> Option<AtomFeedView>;

/// Calls `rss::Channel::read_from` and keeps the channel's title, link and
/// description and, for each item, its guid value, title, link,
/// description, content and publication date. Claimed: the result depends
/// on the bytes alone and is the named `rss_channel_of` of them.
#[verifier::external_body]
pub(crate) fn read_rss_channel(data: &[u8]) -> (r: Option<RssChannel>)
    ensures
        r matches Some(c) ==> rss_channel_of(data@) == Some(c@),
        r is None <==> rss_channel_of(data@) is None,
{
    let c = rss::Channel::read_from(data).ok()?;
    let o = |x: Option<&str>| x.map(String::from);
    let items = c.items().iter().map(|i| RssItem {
        guid: o(i.guid().map(|g| g.value())),
        title: o(i.title()),
        link: o(i.link()),
        description: o(i.description()),
        content: o(i.content()),
        pub_date: o(i.pub_date()),
    }).collect();
    let (title, link, description) = (c.title().into(), c.link().into(), c.description().into());
    Some(RssChannel { title, link, description, items })
}

/// Calls `atom_syndication::Feed::read_from` and keeps the feed's title,
/// the target of its first link and its subtitle. Claimed: the result
/// depends on the bytes alone and is the head of the named `atom_feed_of`
/// of them.
#[verifier::external_body]
pub(crate) fn read_atom_head(data: &[u8]) -> (r: Option<AtomHead>)
    ensures
        r is None <==> atom_feed_of(data@) is None,
        r matches Some(h) ==> (atom_feed_of(data@) matches Some(v) && h.title@ == v.title
            && text_of(h.link) == v.link && text_of(h.subtitle) == v.subtitle),
{
    let f = Feed::read_from(data).ok()?;
    let link = f.links().first().map(|l| l.href().to_string());
    let subtitle = f.subtitle().map(|s| s.to_string());
    Some(AtomHead { title: f.title().to_string(), link, subtitle })
}

/// Calls `str::parse::<atom_syndication::Feed>`, which reads the bytes of the
/// text as `Feed::read_from` does, and keeps for each entry its id, title,
/// first link target, summary, content value and dates (as chrono writes
/// them). Claimed: the result depends on the text alone and is the entries
/// of the named `atom_feed_of` of its bytes.
#[verifier::external_body]
pub(crate) fn read_atom_entries(text: &str) -> (r: Option<Vec<AtomEntry>>)
    ensures
        r is None <==> atom_feed_of(text.spec_bytes()) is None,
        r matches Some(es) ==> (atom_feed_of(text.spec_bytes()) matches Some(v) && v.entries
            == es@.map_values(|e: AtomEntry| e@)),
{
    let f = text.parse::<Feed>().ok()?;
    let t = |s: &Text| s.to_string();
    Some(f.entries().iter().map(|e| AtomEntry {
        id: e.id().to_string(),
        title: t(e.title()),
        link: e.links().first().map(|l| l.href().to_string()),
        summary: e.summary().map(t),
        content: e.content().and_then(Content::value).map(String::from),
        published: e.published().map(ToString::to_string),
        updated: e.updated().to_string(),
    }).collect())
}

/// The Atom feed that the text holds, where atom_syndication accepts it.
pub fn read_atom_feed(text: &str) -> (r: Option<AtomFeed>)
    ensures
        r is None <==> atom_feed_of(text.spec_bytes()) is None,
        r matches Some(f) ==> atom_feed_of(text.spec_bytes()) == Some(f@),
{
    let head = read_atom_head(text.as_bytes());
    let entries = read_atom_entries(text);
    match (head, entries) {
        (Some(h), Some(es)) => {
            let feed = AtomFeed { title: h.title, link: h.link, subtitle: h.subtitle, entries: es };
            assert(feed@.entries == es@.map_values(|e: AtomEntry| e@));
            Some(feed)
        },
        _ => None,
    }
}

/// An XML token as the reader looks at it.
#[derive(Debug)]
pub enum XmlEvent {
    /// The start tag of an element, with the element's name.
    Start(String),
    /// The end of the document.
    Eof,
    /// Anything else, a syntax error included.
    Other,
}

/// The kind of an XML token and, for a start tag, the element's name.
pub enum XmlEventView {
    Start(Seq<char>),
    Eof,
    Other,
}

impl View for XmlEvent {
    type V = XmlEventView;

    open spec fn view(&self) -> XmlEventView {
        match self {
            XmlEvent::Start(name) => XmlEventView::Start(name@),
            XmlEvent::Eof => XmlEventView::Eof,
            XmlEvent::Other => XmlEventView::Other,
        }
    }
}

/// The token, sorted as `XmlEvent` sorts it, that the call of
/// `quick_xml::Reader::read_event` numbered `index` (from zero) returns on a
/// reader that `quick_xml::Reader::from_str` made for the text whose UTF-8
/// bytes are `data`.
pub uninterp spec fn xml_event_at(data: Seq<u8>, index: nat) -> XmlEventView;

#[verifier::external_type_specification]
#[verifier::external_body]
#[verifier::reject_recursive_types(R)]
pub struct ExXmlReader<R>(quick_xml::Reader<R>);

/// A quick-xml reader over a text, with the bytes of the text and the
/// number of tokens read from it so far.
pub struct XmlTokens<'a> {
    reader: quick_xml::Reader<&'a [u8]>,
    data: Ghost<Seq<u8>>,
    read: Ghost<nat>,
}

impl<'a> View for XmlTokens<'a> {
    type V = (Seq<u8>, nat);

    closed spec fn view(&self) -> (Seq<u8>, nat) {
        (self.data@, self.read@)
    }
}

/// Calls `quick_xml::Reader::from_str`. Claimed: a reader over the bytes of
/// the text that has read no token yet.
#[verifier::external_body]
pub(crate) fn xml_reader<'a>(text: &'a str) -> (r: XmlTokens<'a>)
    ensures
        r@ == (text.spec_bytes(), 0nat),
{
    XmlTokens {
        reader: quick_xml::Reader::from_str(text),
        data: Ghost(text.spec_bytes()),
        read: Ghost(0nat),
    }
}

/// Calls `quick_xml::Reader::read_event` and keeps the name of a start tag.
/// Claimed: the token depends on the text and on how many tokens were read
/// before alone, and is the named `xml_event_at` of them; one more token has
/// then been read.
#[verifier::external_body]
pub(crate) fn next_xml_event(tokens: &mut XmlTokens) -> (r: XmlEvent)
    ensures
        r@ == xml_event_at(old(tokens)@.0, old(tokens)@.1),
        final(tokens)@ == (old(tokens)@.0, old(tokens)@.1 + 1),
{
    let r = match tokens.reader.read_event() {
        Ok(quick_xml::events::Event::Start(e)) => XmlEvent::Start(e.name().0.to_string()),
        Ok(quick_xml::events::Event::Eof) => XmlEvent::Eof,
        _ => XmlEvent::Other,
    };
    proof {
        tokens.read@ = tokens.read@ + 1;
    }
    r
}

} // verus!
