//! What the reader does with a fetched feed: which of its items are new,
//! which changed, and who gets to see them.
use vstd::prelude::*;
use vstd::string::StringSliceAdditionalSpecFns;

use crate::models::{item_from_atom, item_from_rss, rss_item_complete, NewFeed, NewItem};
use crate::syndication::{
    atom_feed_of, next_xml_event, read_atom_feed, read_rss_channel, rss_channel_of, text_of,
    xml_event_at, xml_reader, AtomEntry, AtomEntryView, AtomFeed, AtomFeedView, RssChannel,
    RssChannelView, RssItem, RssItemView, XmlEvent, XmlEventView,
};
use crate::time::Timestamp;

verus! {

// ---------------------------------------------------------------------------
// Reading a fetched feed
// ---------------------------------------------------------------------------

/// A fetched feed, RSS or Atom.
#[derive(Debug)]
pub enum FeedType {
    RSS(RssChannel),
    Atom(AtomFeed),
}

/// The text of a fetched feed.
pub enum FeedTypeView {
    RSS(RssChannelView),
    Atom(AtomFeedView),
}

impl View for FeedType {
    type V = FeedTypeView;

    open spec fn view(&self) -> FeedTypeView {
        match self {
            FeedType::RSS(c) => FeedTypeView::RSS(c@),
            FeedType::Atom(f) => FeedTypeView::Atom(f@),
        }
    }
}

/// The items of a fetched feed.
#[derive(Debug)]
pub enum ItemType {
    Item(Vec<RssItem>),
    Entry(Vec<AtomEntry>),
}

/// The text of the items of a fetched feed.
pub enum ItemTypeView {
    Item(Seq<RssItemView>),
    Entry(Seq<AtomEntryView>),
}

impl View for ItemType {
    type V = ItemTypeView;

    open spec fn view(&self) -> ItemTypeView {
        match self {
            ItemType::Item(v) => ItemTypeView::Item(v@.map_values(|i: RssItem| i@)),
            ItemType::Entry(v) => ItemTypeView::Entry(v@.map_values(|e: AtomEntry| e@)),
        }
    }
}

/// What the bytes hold once the first element named `rss` or `feed` is
/// found: `None` for any other element name, else the RSS channel or the
/// Atom feed read from the whole of the bytes, `None` inside where that
/// reading fails.
pub open spec fn feed_for_tag(name: Seq<char>, data: Seq<u8>) -> Option<Option<FeedTypeView>> {
    if name == seq!['r', 's', 's'] {
        Some(
            match rss_channel_of(data) {
                Some(c) => Some(FeedTypeView::RSS(c)),
                None => None,
            },
        )
    } else if name == seq!['f', 'e', 'e', 'd'] {
        Some(
            match atom_feed_of(data) {
                Some(f) => Some(FeedTypeView::Atom(f)),
                None => None,
            },
        )
    } else {
        None
    }
}

/// Whether two texts are the same.
fn same_text(a: &str, b: &str) -> (r: bool)
    ensures
        r == (a@ == b@),
{
    a.to_owned() == b.to_owned()
}

/// Reads the text as the feed that an element of this name announces:
/// `None` where the name is neither `rss` nor `feed`; `Some(Err(()))` where
/// the announced format refuses the text's bytes.
pub fn read_feed_for_tag(name: &str, text: &str) -> (r: Option<Result<FeedType, ()>>)
    ensures
        match feed_for_tag(name@, text.spec_bytes()) {
            None => r is None,
            Some(None) => r matches Some(Err(_)),
            Some(Some(v)) => r matches Some(Ok(f)) && f@ == v,
        },
{
    proof {
        reveal_strlit("rss");
        reveal_strlit("feed");
        assert("rss"@ =~= seq!['r', 's', 's']);
        assert("feed"@ =~= seq!['f', 'e', 'e', 'd']);
    }
    if same_text(name, "rss") {
        match read_rss_channel(text.as_bytes()) {
            Some(channel) => Some(Ok(FeedType::RSS(channel))),
            None => Some(Err(())),
        }
    } else if same_text(name, "feed") {
        match read_atom_feed(text) {
            Some(feed) => Some(Ok(FeedType::Atom(feed))),
            None => Some(Err(())),
        }
    } else {
        None
    }
}

/// What reading the bytes as a feed comes to from token `k` on, with at
/// most `budget` tokens read after that one: at the first start tag named
/// `rss` or `feed`, the channel or feed read from the whole of the bytes
/// (`None` where that reading fails); `None` at the end of the tokens, or
/// where the budget runs out first.
pub open spec fn feed_from_tokens(data: Seq<u8>, k: nat, budget: nat) -> Option<FeedTypeView>
    decreases budget,
{
    let next = if budget == 0 {
        None
    } else {
        feed_from_tokens(data, k + 1, (budget - 1) as nat)
    };
    match xml_event_at(data, k) {
        XmlEventView::Start(name) => match feed_for_tag(name, data) {
            Some(found) => found,
            None => next,
        },
        XmlEventView::Eof => None,
        XmlEventView::Other => next,
    }
}

/// What the fetched bytes hold as a feed, reading at most one token more
/// than there are bytes.
pub open spec fn fetched_feed(data: Seq<u8>) -> Option<FeedTypeView> {
    feed_from_tokens(data, 0, data.len())
}

proof fn lemma_tokens_reach_tag(data: Seq<u8>, i: nat, budget: nat, k: nat)
    requires
        i <= k,
        k - i <= budget,
        forall|j: nat|
            i <= j < k ==> (#[trigger] xml_event_at(data, j) matches XmlEventView::Start(n) ==> n
                != seq!['r', 's', 's'] && n != seq!['f', 'e', 'e', 'd']) && xml_event_at(data, j)
                !is Eof,
    ensures
        xml_event_at(data, k) == XmlEventView::Start(seq!['r', 's', 's']) ==> feed_from_tokens(
            data,
            i,
            budget,
        ) == (match rss_channel_of(data) {
            Some(c) => Some(FeedTypeView::RSS(c)),
            None => None,
        }),
        xml_event_at(data, k) == XmlEventView::Start(seq!['f', 'e', 'e', 'd'])
            ==> feed_from_tokens(data, i, budget) == (match atom_feed_of(data) {
            Some(a) => Some(FeedTypeView::Atom(a)),
            None => None,
        }),
    decreases k - i,
{
    if i < k {
        lemma_tokens_reach_tag(data, i + 1, (budget - 1) as nat, k);
        let e = xml_event_at(data, i);
        if let XmlEventView::Start(n) = e {
            assert(n != seq!['r', 's', 's'] && n != seq!['f', 'e', 'e', 'd']);
            assert(feed_for_tag(n, data) is None);
        }
    }
}

/// However many tokens come first, as long as none of them ends the
/// document or is a feed tag and they number no more than the bytes: at a
/// start tag named `rss` the fetched bytes hold what `rss` reads from them,
/// at one named `feed` what `atom_syndication` reads from them.
pub proof fn lemma_feed_tag_decides(data: Seq<u8>, k: nat)
    requires
        k <= data.len(),
        forall|j: nat|
            j < k ==> (#[trigger] xml_event_at(data, j) matches XmlEventView::Start(n) ==> n
                != seq!['r', 's', 's'] && n != seq!['f', 'e', 'e', 'd']) && xml_event_at(data, j)
                !is Eof,
    ensures
        xml_event_at(data, k) == XmlEventView::Start(seq!['r', 's', 's']) ==> fetched_feed(data)
            == (match rss_channel_of(data) {
            Some(c) => Some(FeedTypeView::RSS(c)),
            None => None,
        }),
        xml_event_at(data, k) == XmlEventView::Start(seq!['f', 'e', 'e', 'd']) ==> fetched_feed(
            data,
        ) == (match atom_feed_of(data) {
            Some(a) => Some(FeedTypeView::Atom(a)),
            None => None,
        }),
{
    lemma_tokens_reach_tag(data, 0, data.len(), k);
}

/// Reads fetched bytes, which must be UTF-8, as a feed: XML tokens are read
/// in order until the start tag of an element named `rss` or `feed`, and
/// the whole of the bytes is then read as an RSS channel or an Atom feed.
/// `Err(())` where that reading fails, and where the tokens end (or, after
/// one token per byte and one more, have not ended) without such a tag.
pub fn parse_fetched_data(string: &[u8]) -> (r: Result<FeedType, ()>)
    requires
        vstd::utf8::valid_utf8(string@),
    ensures
        match fetched_feed(string@) {
            Some(v) => r matches Ok(f) && f@ == v,
            None => r is Err,
        },
        forall|k: nat|
            #![trigger xml_event_at(string@, k)]
            k <= string@.len() && (forall|j: nat|
                j < k ==> (#[trigger] xml_event_at(string@, j) matches XmlEventView::Start(n) ==> n
                    != seq!['r', 's', 's'] && n != seq!['f', 'e', 'e', 'd']) && xml_event_at(
                    string@,
                    j,
                ) !is Eof) ==> {
                &&& xml_event_at(string@, k) == XmlEventView::Start(seq!['r', 's', 's'])
                    ==> match rss_channel_of(string@) {
                    Some(c) => r matches Ok(f) && f@ == FeedTypeView::RSS(c),
                    None => r is Err,
                }
                &&& xml_event_at(string@, k) == XmlEventView::Start(seq!['f', 'e', 'e', 'd'])
                    ==> match atom_feed_of(string@) {
                    Some(a) => r matches Ok(f) && f@ == FeedTypeView::Atom(a),
                    None => r is Err,
                }
            },
{
    proof {
        assert forall|k: nat|
            #![trigger xml_event_at(string@, k)]
            k <= string@.len() && (forall|j: nat|
                j < k ==> (#[trigger] xml_event_at(string@, j) matches XmlEventView::Start(n) ==> n
                    != seq!['r', 's', 's'] && n != seq!['f', 'e', 'e', 'd']) && xml_event_at(
                    string@,
                    j,
                ) !is Eof) implies {
                &&& xml_event_at(string@, k) == XmlEventView::Start(seq!['r', 's', 's'])
                    ==> fetched_feed(string@) == (match rss_channel_of(string@) {
                    Some(c) => Some(FeedTypeView::RSS(c)),
                    None => None,
                })
                &&& xml_event_at(string@, k) == XmlEventView::Start(seq!['f', 'e', 'e', 'd'])
                    ==> fetched_feed(string@) == (match atom_feed_of(string@) {
                    Some(a) => Some(FeedTypeView::Atom(a)),
                    None => None,
                })
            } by {
            lemma_feed_tag_decides(string@, k);
        }
    }
    scan_fetched_data(string)
}

/// Reads the tokens of fetched UTF-8 bytes until a feed tag, the end, or the
/// budget decides.
fn scan_fetched_data(string: &[u8]) -> (r: Result<FeedType, ()>)
    requires
        vstd::utf8::valid_utf8(string@),
    ensures
        match fetched_feed(string@) {
            Some(v) => r matches Ok(f) && f@ == v,
            None => r is Err,
        },
{
    let text = match utf8_text(string) {
        Some(t) => t,
        None => {
            return Err(());
        },
    };
    let mut tokens = xml_reader(text);
    let mut budget: usize = string.len();
    loop
        invariant
            budget <= string.len(),
            text.spec_bytes() == string@,
            tokens@.0 == string@,
            feed_from_tokens(string@, tokens@.1, budget as nat) == fetched_feed(string@),
        decreases budget,
    {
        match next_xml_event(&mut tokens) {
            XmlEvent::Start(name) => {
                match read_feed_for_tag(name.as_str(), text) {
                    Some(res) => {
                        return res;
                    },
                    None => {},
                }
            },
            XmlEvent::Eof => {
                return Err(());
            },
            XmlEvent::Other => {},
        }
        if budget == 0 {
            return Err(());
        }
        budget = budget - 1;
    }
}

/// Calls `std::str::from_utf8`: the bytes as text where they are UTF-8.
#[verifier::external_body]
fn utf8_text(data: &[u8]) -> (r: Option<&str>)
    ensures
        r is Some <==> vstd::utf8::valid_utf8(data@),
        r matches Some(t) ==> t.spec_bytes() == data@,
{
    std::str::from_utf8(data).ok()
}

/// The fetched feed split into the feed to store, for the URL it came from,
/// and its items. An Atom feed must have a link.
pub fn handle_feed_types(parsed: FeedType, url: &str) -> (r: Result<(NewFeed, ItemType), ()>)
    requires
        parsed matches FeedType::Atom(f) ==> f.link is Some,
    ensures
        r is Ok,
        r matches Ok((feed, items)) ==> feed.feed_link@ == url@ && match parsed@ {
            FeedTypeView::RSS(c) => {
                &&& feed.title@ == c.title
                &&& feed.site_link@ == c.link
                &&& text_of(feed.description) == Some(c.description)
                &&& items@ == ItemTypeView::Item(c.items)
            },
            FeedTypeView::Atom(a) => {
                &&& feed.title@ == a.title
                &&& Some(feed.site_link@) == a.link
                &&& text_of(feed.description) == a.subtitle
                &&& items@ == ItemTypeView::Entry(a.entries)
            },
        },
{
    match parsed {
        FeedType::RSS(feed) => {
            let new_feed = NewFeed::from_rss(&feed, url);
            Ok((new_feed, ItemType::Item(feed.items)))
        },
        FeedType::Atom(feed) => {
            let new_feed = NewFeed::from_atom(&feed, url);
            Ok((new_feed, ItemType::Entry(feed.entries)))
        },
    }
}

/// The items to store for the RSS items of a feed; each item must have a
/// guid, a title and a link.
pub fn process_items(feed_items: Vec<RssItem>, channel_id: &i32) -> (r: Vec<NewItem>)
    requires
        forall|k: int| 0 <= k < feed_items.len() ==> rss_item_complete(#[trigger] feed_items@[k]@),
    ensures
        r.len() == feed_items.len(),
        forall|k: int| 0 <= k < r.len() ==> item_from_rss(#[trigger] r@[k], feed_items@[k]@, *channel_id),
{
    let mut items: Vec<NewItem> = Vec::new();
    let mut k: usize = 0;
    while k < feed_items.len()
        invariant
            k <= feed_items.len(),
            items.len() == k,
            forall|k: int| 0 <= k < feed_items.len() ==> rss_item_complete(#[trigger] feed_items@[k]@),
            forall|j: int| 0 <= j < k ==> item_from_rss(#[trigger] items@[j], feed_items@[j]@, *channel_id),
        decreases feed_items.len() - k,
    {
        items.push(NewItem::from_item(&feed_items[k], *channel_id));
        k = k + 1;
    }
    items
}

/// The items to store for the Atom entries of a feed; each entry must have
/// a link.
pub fn process_entries(feed_items: Vec<AtomEntry>, channel_id: &i32) -> (r: Vec<NewItem>)
    requires
        forall|k: int| 0 <= k < feed_items.len() ==> (#[trigger] feed_items@[k]).link is Some,
    ensures
        r.len() == feed_items.len(),
        forall|k: int| 0 <= k < r.len() ==> item_from_atom(#[trigger] r@[k], feed_items@[k]@, *channel_id),
{
    let mut items: Vec<NewItem> = Vec::new();
    let mut k: usize = 0;
    while k < feed_items.len()
        invariant
            k <= feed_items.len(),
            items.len() == k,
            forall|k: int| 0 <= k < feed_items.len() ==> (#[trigger] feed_items@[k]).link is Some,
            forall|j: int| 0 <= j < k ==> item_from_atom(#[trigger] items@[j], feed_items@[j]@, *channel_id),
        decreases feed_items.len() - k,
    {
        items.push(NewItem::from_entry(&feed_items[k], *channel_id));
        k = k + 1;
    }
    items
}

/// The items to store for a feed's items, RSS or Atom; every RSS item must
/// have a guid, a title and a link, every Atom entry a link.
pub fn handle_item_types(parsed: ItemType, feed_id: i32) -> (r: Vec<NewItem>)
    requires
        parsed matches ItemType::Item(v) ==> forall|k: int|
            0 <= k < v.len() ==> rss_item_complete(#[trigger] v@[k]@),
        parsed matches ItemType::Entry(v) ==> forall|k: int|
            0 <= k < v.len() ==> (#[trigger] v@[k]).link is Some,
    ensures
        match parsed@ {
            ItemTypeView::Item(v) => r.len() == v.len() && forall|k: int|
                0 <= k < r.len() ==> item_from_rss(#[trigger] r@[k], v[k], feed_id),
            ItemTypeView::Entry(v) => r.len() == v.len() && forall|k: int|
                0 <= k < r.len() ==> item_from_atom(#[trigger] r@[k], v[k], feed_id),
        },
{
    match parsed {
        ItemType::Item(i) => process_items(i, &feed_id),
        ItemType::Entry(i) => process_entries(i, &feed_id),
    }
}

// ---------------------------------------------------------------------------
// Delivering items to subscribers
// ---------------------------------------------------------------------------

/// The rows `(user_id, item_id, seen)` that deliver every item to every
/// subscriber, unseen: subscriber by subscriber, items in order within each.
pub open spec fn delivery_rows(subscribers: Seq<i32>, items: Seq<i32>) -> Seq<(i32, i32, bool)>
    decreases subscribers.len(),
{
    if subscribers.len() == 0 {
        Seq::empty()
    } else {
        delivery_rows(subscribers.drop_last(), items) + items.map_values(
            |i: i32| (subscribers.last(), i, false),
        )
    }
}

/// Every subscriber gets every item exactly once, unseen: the rows number
/// subscribers times items, and row `s * |items| + i` delivers item `i` to
/// subscriber `s`.
pub proof fn lemma_delivery_rows(subscribers: Seq<i32>, items: Seq<i32>)
    ensures
        delivery_rows(subscribers, items).len() == subscribers.len() * items.len(),
        forall|s: int, i: int|
            0 <= s < subscribers.len() && 0 <= i < items.len() ==> #[trigger] delivery_rows(
                subscribers,
                items,
            )[s * items.len() + i] == (subscribers[s], items[i], false),
    decreases subscribers.len(),
{
    if subscribers.len() > 0 {
        let prev = subscribers.drop_last();
        lemma_delivery_rows(prev, items);
        let n = items.len() as int;
        let m = prev.len() as int;
        assert((m + 1) * n == m * n + n) by (nonlinear_arith);
        assert forall|s: int, i: int|
            0 <= s < subscribers.len() && 0 <= i < items.len() implies #[trigger] delivery_rows(
                subscribers,
                items,
            )[s * items.len() + i] == (subscribers[s], items[i], false) by {
            if s < m {
                assert(s * n + i < m * n) by (nonlinear_arith)
                    requires
                        s < m,
                        i < n,
                        0 <= i,
                ;
                assert(prev[s] == subscribers[s]);
            } else {
                assert(s * n == m * n);
            }
        }
    }
}

/// The rows that deliver the freshly stored items to the feed's subscribers,
/// each unseen: `(user_id, item_id, false)` for every subscriber and every
/// item, subscriber by subscriber.
pub fn finalise_subscribed_items(inserted_items: Vec<i32>, subscribers: Vec<i32>) -> (r: Vec<
    (i32, i32, bool),
>)
    requires
        subscribers.len() * inserted_items.len() <= usize::MAX,
    ensures
        r@ == delivery_rows(subscribers@, inserted_items@),
{
    let mut rows: Vec<(i32, i32, bool)> = Vec::new();
    let mut s: usize = 0;
    while s < subscribers.len()
        invariant
            s <= subscribers.len(),
            rows@ == delivery_rows(subscribers@.take(s as int), inserted_items@),
        decreases subscribers.len() - s,
    {
        let user = subscribers[s];
        let ghost before = rows@;
        let mut i: usize = 0;
        while i < inserted_items.len()
            invariant
                s < subscribers.len(),
                user == subscribers@[s as int],
                i <= inserted_items.len(),
                rows@ == before + inserted_items@.take(i as int).map_values(
                    |x: i32| (user, x, false),
                ),
            decreases inserted_items.len() - i,
        {
            rows.push((user, inserted_items[i], false));
            i = i + 1;
            assert(rows@ =~= before + inserted_items@.take(i as int).map_values(
                |x: i32| (user, x, false),
            ));
        }
        proof {
            let taken = subscribers@.take(s as int + 1);
            assert(taken.drop_last() =~= subscribers@.take(s as int));
            assert(inserted_items@.take(i as int) =~= inserted_items@);
        }
        s = s + 1;
    }
    assert(subscribers@.take(s as int) =~= subscribers@);
    rows
}

// ---------------------------------------------------------------------------
// Telling new items from stored ones
// ---------------------------------------------------------------------------

/// A stored item that shares a guid with a fetched one:
/// `(stored id, guid, stored published_at)`.
pub type Duplicate = (i32, String, Option<Timestamp>);

/// Whether some stored item has this guid.
pub open spec fn guid_stored(dupes: Seq<Duplicate>, guid: Seq<char>) -> bool {
    exists|k: int| 0 <= k < dupes.len() && (#[trigger] dupes[k]).1@ == guid
}

/// The position of the first stored item with this guid.
pub open spec fn first_stored(dupes: Seq<Duplicate>, guid: Seq<char>) -> int
    decreases dupes.len(),
{
    if dupes.len() == 0 {
        0
    } else if dupes[0].1@ == guid {
        0
    } else {
        1 + first_stored(dupes.drop_first(), guid)
    }
}

/// The fetched items that no stored item shares a guid with, in their order.
pub open spec fn fresh_items(items: Seq<NewItem>, dupes: Seq<Duplicate>) -> Seq<NewItem>
    decreases items.len(),
{
    if items.len() == 0 {
        Seq::empty()
    } else {
        let rest = fresh_items(items.drop_first(), dupes);
        if guid_stored(dupes, items[0].guid@) {
            rest
        } else {
            seq![items[0]] + rest
        }
    }
}

/// The stored items to rewrite, each with the id of the first stored item of
/// its guid: the fetched items with a stored guid whose `published_at`
/// differs from what that stored item holds.
pub open spec fn changed_items(items: Seq<NewItem>, dupes: Seq<Duplicate>) -> Seq<(i32, NewItem)>
    decreases items.len(),
{
    if items.len() == 0 {
        Seq::empty()
    } else {
        let rest = changed_items(items.drop_first(), dupes);
        let item = items[0];
        if guid_stored(dupes, item.guid@) {
            let stored = dupes[first_stored(dupes, item.guid@)];
            if item.published_at != stored.2 {
                seq![(stored.0, item)] + rest
            } else {
                rest
            }
        } else {
            rest
        }
    }
}

/// The stored items that `find_duplicates` reported, as a sequence; it
/// reports none as `None`.
pub open spec fn stored_of(dupes: Option<Vec<Duplicate>>) -> Seq<Duplicate> {
    match dupes {
        Some(d) => d@,
        None => Seq::empty(),
    }
}

/// The first stored item with a stored guid lies among the stored items,
/// has that guid, and no stored item before it has it.
pub proof fn lemma_first_stored(dupes: Seq<Duplicate>, guid: Seq<char>)
    requires
        guid_stored(dupes, guid),
    ensures
        0 <= first_stored(dupes, guid) < dupes.len(),
        dupes[first_stored(dupes, guid)].1@ == guid,
        forall|k: int| 0 <= k < first_stored(dupes, guid) ==> (#[trigger] dupes[k]).1@ != guid,
    decreases dupes.len(),
{
    if dupes[0].1@ != guid {
        let k0 = choose|k: int| 0 <= k < dupes.len() && (#[trigger] dupes[k]).1@ == guid;
        assert(dupes.drop_first()[k0 - 1] == dupes[k0]);
        lemma_first_stored(dupes.drop_first(), guid);
        assert forall|k: int| 0 <= k < first_stored(dupes, guid) implies (
        #[trigger] dupes[k]).1@ != guid by {
            if k > 0 {
                assert(dupes.drop_first()[k - 1] == dupes[k]);
            }
        }
    }
}

/// With nothing stored, every fetched item is new and none is rewritten.
pub proof fn lemma_nothing_stored(items: Seq<NewItem>)
    ensures
        fresh_items(items, Seq::empty()) == items,
        changed_items(items, Seq::empty()).len() == 0,
    decreases items.len(),
{
    if items.len() > 0 {
        lemma_nothing_stored(items.drop_first());
        assert(!guid_stored(Seq::empty(), items[0].guid@));
        assert(seq![items[0]] + items.drop_first() =~= items);
    }
}

/// The new items are fetched items whose guid is not stored; each rewrite
/// is a fetched item whose guid is stored and whose publication date
/// differs from the stored one, under the stored item's id; and no fetched
/// item is both new and rewritten, so there are no more of the two together
/// than fetched items.
pub proof fn lemma_fresh_and_changed(items: Seq<NewItem>, dupes: Seq<Duplicate>)
    ensures
        forall|k: int|
            0 <= k < fresh_items(items, dupes).len() ==> items.contains(
                #[trigger] fresh_items(items, dupes)[k],
            ) && !guid_stored(dupes, fresh_items(items, dupes)[k].guid@),
        forall|k: int|
            0 <= k < changed_items(items, dupes).len() ==> {
                let (id, item) = #[trigger] changed_items(items, dupes)[k];
                &&& items.contains(item)
                &&& guid_stored(dupes, item.guid@)
                &&& id == dupes[first_stored(dupes, item.guid@)].0
                &&& item.published_at != dupes[first_stored(dupes, item.guid@)].2
            },
        fresh_items(items, dupes).len() + changed_items(items, dupes).len() <= items.len(),
    decreases items.len(),
{
    if items.len() > 0 {
        let rest = items.drop_first();
        lemma_fresh_and_changed(rest, dupes);
        let f = fresh_items(items, dupes);
        let c = changed_items(items, dupes);
        let fr = fresh_items(rest, dupes);
        let cr = changed_items(rest, dupes);
        assert forall|k: int| 0 <= k < f.len() implies items.contains(#[trigger] f[k])
            && !guid_stored(dupes, f[k].guid@) by {
            if guid_stored(dupes, items[0].guid@) {
                assert(f[k] == fr[k]);
                let j = choose|j: int| 0 <= j < rest.len() && rest[j] == fr[k];
                assert(items[j + 1] == rest[j]);
            } else if k == 0 {
                assert(f[0] == items[0]);
            } else {
                assert(f[k] == fr[k - 1]);
                let j = choose|j: int| 0 <= j < rest.len() && rest[j] == fr[k - 1];
                assert(items[j + 1] == rest[j]);
            }
        }
        assert forall|k: int| 0 <= k < c.len() implies {
            let (id, item) = #[trigger] c[k];
            &&& items.contains(item)
            &&& guid_stored(dupes, item.guid@)
            &&& id == dupes[first_stored(dupes, item.guid@)].0
            &&& item.published_at != dupes[first_stored(dupes, item.guid@)].2
        } by {
            let stored_first = guid_stored(dupes, items[0].guid@) && items[0].published_at
                != dupes[first_stored(dupes, items[0].guid@)].2;
            if stored_first && k == 0 {
                assert(c[0].1 == items[0]);
            } else {
                let k2 = if stored_first {
                    k - 1
                } else {
                    k
                };
                assert(c[k] == cr[k2]);
                let j = choose|j: int| 0 <= j < rest.len() && rest[j] == cr[k2].1;
                assert(items[j + 1] == rest[j]);
            }
        }
    }
}

/// The new items are exactly the fetched items that no stored item shares a
/// guid with, in their order.
pub proof fn lemma_fresh_items_are_unstored(items: Seq<NewItem>, dupes: Seq<Duplicate>)
    ensures
        fresh_items(items, dupes) == items.filter(
            |i: NewItem| forall|j: int| 0 <= j < dupes.len() ==> dupes[j].1@ != i.guid@,
        ),
    decreases items.len(),
{
    let pred = |i: NewItem| forall|j: int| 0 <= j < dupes.len() ==> dupes[j].1@ != i.guid@;
    reveal_with_fuel(Seq::filter, 2);
    if items.len() > 0 {
        let rest = items.drop_first();
        let head = seq![items[0]];
        lemma_fresh_items_are_unstored(rest, dupes);
        assert(items =~= head + rest);
        Seq::filter_distributes_over_add(head, rest, pred);
        assert(head.drop_last() =~= Seq::<NewItem>::empty());
        if guid_stored(dupes, items[0].guid@) {
            let k = choose|k: int| 0 <= k < dupes.len() && (#[trigger] dupes[k]).1@ == items[0].guid@;
            assert(!pred(items[0]));
            assert(head.filter(pred) =~= Seq::<NewItem>::empty());
        } else {
            assert(pred(items[0]));
            assert(head.filter(pred) =~= head);
        }
    }
}

/// The items to rewrite are exactly the fetched items whose guid is stored
/// and whose publication date differs from that of the first stored item
/// with their guid, in their order, each under that stored item's id.
pub proof fn lemma_changed_items_are_redated(items: Seq<NewItem>, dupes: Seq<Duplicate>)
    ensures
        changed_items(items, dupes) == items.filter(
            |i: NewItem|
                (exists|j: int| 0 <= j < dupes.len() && dupes[j].1@ == i.guid@) && i.published_at
                    != dupes[first_stored(dupes, i.guid@)].2,
        ).map_values(|i: NewItem| (dupes[first_stored(dupes, i.guid@)].0, i)),
    decreases items.len(),
{
    let pred = |i: NewItem|
        (exists|j: int| 0 <= j < dupes.len() && dupes[j].1@ == i.guid@) && i.published_at
            != dupes[first_stored(dupes, i.guid@)].2;
    let f = |i: NewItem| (dupes[first_stored(dupes, i.guid@)].0, i);
    reveal_with_fuel(Seq::filter, 2);
    if items.len() > 0 {
        let rest = items.drop_first();
        let head = seq![items[0]];
        lemma_changed_items_are_redated(rest, dupes);
        assert(items =~= head + rest);
        Seq::filter_distributes_over_add(head, rest, pred);
        assert(head.drop_last() =~= Seq::<NewItem>::empty());
        let hf = head.filter(pred);
        let rf = rest.filter(pred);
        assert((hf + rf).map_values(f) =~= hf.map_values(f) + rf.map_values(f));
        if pred(items[0]) {
            assert(hf =~= head);
            assert(hf.map_values(f) =~= seq![f(items[0])]);
        } else {
            assert(hf =~= Seq::<NewItem>::empty());
            assert(hf.map_values(f) =~= Seq::<(i32, NewItem)>::empty());
        }
    }
}

/// Finds the first stored item with the given guid.
fn find_stored(dupes: &Vec<Duplicate>, guid: &String) -> (r: Option<usize>)
    ensures
        r is Some <==> guid_stored(dupes@, guid@),
        r matches Some(k) ==> k == first_stored(dupes@, guid@) && k < dupes@.len(),
{
    let mut k: usize = 0;
    while k < dupes.len()
        invariant
            k <= dupes.len(),
            forall|j: int| 0 <= j < k ==> (#[trigger] dupes@[j]).1@ != guid@,
        decreases dupes.len() - k,
    {
        if dupes[k].1 == *guid {
            proof {
                lemma_first_stored(dupes@, guid@);
            }
            return Some(k);
        }
        k = k + 1;
    }
    None
}

/// Whether two optional instants are the same.
fn same_instant(a: &Option<Timestamp>, b: &Option<Timestamp>) -> (r: bool)
    ensures
        r == (*a == *b),
{
    match (a, b) {
        (Some(x), Some(y)) => x.secs == y.secs && x.nanos == y.nanos,
        (None, None) => true,
        _ => false,
    }
}

/// Splits fetched items by what the store already holds (`dupes`, the
/// answer of `find_duplicates` for their guids). The first part holds the
/// items whose guid is not stored, in order, or `None` where there is none;
/// the second holds the stored items to rewrite because their publication
/// date changed, each with the id of the first stored item of its guid.
pub fn process_duplicates(items: Vec<NewItem>, dupes: Option<Vec<Duplicate>>) -> (r: (
    Option<Vec<NewItem>>,
    Vec<(i32, NewItem)>,
))
    ensures
        r.0 matches Some(v) ==> v@ == fresh_items(items@, stored_of(dupes)) && v@.len() > 0,
        r.0 is None <==> fresh_items(items@, stored_of(dupes)).len() == 0,
        r.1@ == changed_items(items@, stored_of(dupes)),
        r.0 matches Some(v) ==> v@ == items@.filter(
            |i: NewItem|
                forall|j: int|
                    0 <= j < stored_of(dupes).len() ==> stored_of(dupes)[j].1@ != i.guid@,
        ),
        r.0 is None <==> items@.filter(
            |i: NewItem|
                forall|j: int|
                    0 <= j < stored_of(dupes).len() ==> stored_of(dupes)[j].1@ != i.guid@,
        ).len() == 0,
        r.1@ == items@.filter(
            |i: NewItem|
                (exists|j: int|
                    0 <= j < stored_of(dupes).len() && stored_of(dupes)[j].1@ == i.guid@)
                    && i.published_at != stored_of(dupes)[first_stored(
                    stored_of(dupes),
                    i.guid@,
                )].2,
        ).map_values(|i: NewItem| (stored_of(dupes)[first_stored(stored_of(dupes), i.guid@)].0, i)),
{
    proof {
        lemma_fresh_items_are_unstored(items@, stored_of(dupes));
        lemma_changed_items_are_redated(items@, stored_of(dupes));
    }
    let stored: Vec<Duplicate> = match dupes {
        Some(d) => d,
        None => Vec::new(),
    };
    let ghost all = items@;
    let mut items = items;
    let mut fresh: Vec<NewItem> = Vec::new();
    let mut changed: Vec<(i32, NewItem)> = Vec::new();
    let ghost mut done: int = 0;
    while items.len() > 0
        invariant
            0 <= done <= all.len(),
            items@ == all.skip(done),
            fresh@ + fresh_items(items@, stored@) == fresh_items(all, stored@),
            changed@ + changed_items(items@, stored@) == changed_items(all, stored@),
        decreases items.len(),
    {
        let ghost rest = items@;
        let item = items.remove(0);
        assert(items@ =~= rest.drop_first());
        proof {
            done = done + 1;
            assert(items@ =~= all.skip(done));
        }
        match find_stored(&stored, &item.guid) {
            None => {
                let ghost f = fresh@;
                fresh.push(item);
                assert(fresh@ + fresh_items(items@, stored@) =~= f + fresh_items(rest, stored@));
            },
            Some(k) => {
                let id = stored[k].0;
                if !same_instant(&item.published_at, &stored[k].2) {
                    let ghost c = changed@;
                    changed.push((id, item));
                    assert(changed@ + changed_items(items@, stored@) =~= c + changed_items(
                        rest,
                        stored@,
                    ));
                }
            },
        }
    }
    assert(fresh_items(items@, stored@) =~= Seq::<NewItem>::empty());
    assert(changed_items(items@, stored@) =~= Seq::<(i32, NewItem)>::empty());
    assert(fresh@ =~= fresh_items(all, stored@));
    assert(changed@ =~= changed_items(all, stored@));
    if fresh.len() == 0 {
        (None, changed)
    } else {
        (Some(fresh), changed)
    }
}

} // verus!
