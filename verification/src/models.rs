//! The rows of the reader's store: feeds, their items, subscriptions, users.
use vstd::prelude::*;

use vstd::utf8::*;

use crate::crypto::{
    base64_decode, base64_decoded, base64_encode, base64_text, lemma_base64_text_len, same_bytes,
    sha256, sha256_digest,
};
use crate::syndication::{copy_text, text_of, AtomEntry, AtomEntryView, AtomFeed, RssChannel, RssItem, RssItemView};
use crate::time::{date_of, now, parse_date, Timestamp};

verus! {

/// A feed as the store holds it.
#[derive(Clone, Debug)]
pub struct Feed {
    pub id: i32,
    pub title: String,
    pub description: Option<String>,
    pub site_link: String,
    pub feed_link: String,
    pub updated_at: Timestamp,
}

/// A feed about to be stored; the store gives it its id.
#[derive(Debug)]
pub struct NewFeed {
    pub title: String,
    pub description: Option<String>,
    pub site_link: String,
    pub feed_link: String,
    pub updated_at: Timestamp,
}

/// An item of a feed as the store holds it.
#[derive(Debug)]
pub struct Item {
    pub id: i32,
    pub guid: String,
    pub link: String,
    pub title: String,
    pub summary: Option<String>,
    pub content: Option<String>,
    pub published_at: Option<Timestamp>,
    pub updated_at: Option<Timestamp>,
    pub feed_id: i32,
}

/// An item about to be stored, or the new state of a stored one.
#[derive(Clone, Debug)]
pub struct NewItem {
    pub guid: String,
    pub link: String,
    pub title: String,
    pub summary: Option<String>,
    pub content: Option<String>,
    pub published_at: Option<Timestamp>,
    pub updated_at: Option<Timestamp>,
    pub feed_id: i32,
}

/// An item as one subscriber sees it: whether that subscriber has seen it.
#[derive(Clone, Copy, Debug, PartialEq, Eq, Structural)]
pub struct SubscribedItem {
    pub id: i32,
    pub item_id: i32,
    pub user_id: i32,
    pub seen: bool,
}

/// A user's subscription to a feed.
#[derive(Clone, Copy, Debug, PartialEq, Eq, Structural)]
pub struct SubscribedFeed {
    pub id: i32,
    pub user_id: i32,
    pub feed_id: i32,
}

/// An item with its seen flag, as the reader lists it.
#[derive(Debug)]
pub struct CompositeItem {
    pub item_id: i32,
    pub title: String,
    pub link: Option<String>,
    pub summary: Option<String>,
    pub content: Option<String>,
    pub published_at: Option<Timestamp>,
    pub updated_at: Option<Timestamp>,
    pub seen: bool,
}

/// A user; `password_hash` holds the bytes of the Base64 text of the SHA-256
/// digest of the password.
#[derive(Debug)]
pub struct User {
    pub id: i32,
    pub username: String,
    pub password_hash: Vec<u8>,
}

/// What a signed token says of its bearer.
#[derive(Debug)]
pub struct Claims {
    pub name: String,
    pub id: i32,
}

impl CompositeItem {
    /// The listing form of an item, from the columns
    /// `(item_id, title, summary, published_at, updated_at, seen)`: no link
    /// and no content.
    pub fn partial(
        item: (i32, String, Option<String>, Option<Timestamp>, Option<Timestamp>, bool),
    ) -> (r: Self)
        ensures
            r.item_id == item.0,
            r.title@ == item.1@,
            r.link is None,
            r.summary == item.2,
            r.content is None,
            r.published_at == item.3,
            r.updated_at == item.4,
            r.seen == item.5,
    {
        let (item_id, title, summary, published_at, updated_at, seen) = item;
        CompositeItem {
            item_id,
            title,
            link: None,
            summary,
            content: None,
            published_at,
            updated_at,
            seen,
        }
    }
}

/// The date an optional date text denotes, if any.
pub open spec fn date_of_text(text: Option<Seq<char>>) -> Option<Timestamp> {
    match text {
        Some(t) => date_of(t),
        None => None,
    }
}

/// An RSS item that the reader can store: it has a guid, a title and a link.
pub open spec fn rss_item_complete(item: RssItemView) -> bool {
    item.guid is Some && item.title is Some && item.link is Some
}

/// The stored form of an RSS item: its guid, title and link, its description
/// as the summary, its content, and its publication date read as a feed
/// date, both as published and as updated.
pub open spec fn item_from_rss(n: NewItem, item: RssItemView, feed_id: i32) -> bool {
    &&& item.guid == Some(n.guid@)
    &&& item.title == Some(n.title@)
    &&& item.link == Some(n.link@)
    &&& text_of(n.summary) == item.description
    &&& text_of(n.content) == item.content
    &&& n.published_at == date_of_text(item.pub_date)
    &&& n.updated_at == date_of_text(item.pub_date)
    &&& n.feed_id == feed_id
}

/// The stored form of an Atom entry: its id as the guid, its title, its
/// first link's target, its summary and content, and its dates read as feed dates.
pub open spec fn item_from_atom(n: NewItem, entry: AtomEntryView, feed_id: i32) -> bool {
    &&& n.guid@ == entry.id
    &&& n.title@ == entry.title
    &&& entry.link == Some(n.link@)
    &&& text_of(n.summary) == entry.summary
    &&& text_of(n.content) == entry.content
    &&& n.published_at == date_of_text(entry.published)
    &&& n.updated_at == date_of(entry.updated)
    &&& n.feed_id == feed_id
}

/// The stored form of an RSS item takes each part from the part of the item
/// it is named after: guid, title and link as they are, the description as
/// the summary, the content as the content, and the publication date, read
/// as a feed date, as both dates.
pub proof fn lemma_item_from_rss_parts(n: NewItem, item: RssItemView, feed_id: i32)
    requires
        item_from_rss(n, item, feed_id),
    ensures
        item.guid == Some(n.guid@),
        item.title == Some(n.title@),
        item.link == Some(n.link@),
        text_of(n.summary) == item.description,
        text_of(n.content) == item.content,
        n.published_at == (match item.pub_date {
            Some(t) => date_of(t),
            None => None,
        }),
        n.updated_at == n.published_at,
        n.feed_id == feed_id,
{
}

/// The stored form of an Atom entry takes its guid from the entry's id, its
/// title from the entry's title, its link from the entry's first link, its
/// summary and content from the entry's, and its dates from the entry's
/// dates read as feed dates.
pub proof fn lemma_item_from_atom_parts(n: NewItem, entry: AtomEntryView, feed_id: i32)
    requires
        item_from_atom(n, entry, feed_id),
    ensures
        n.guid@ == entry.id,
        n.title@ == entry.title,
        entry.link == Some(n.link@),
        text_of(n.summary) == entry.summary,
        text_of(n.content) == entry.content,
        n.published_at == (match entry.published {
            Some(t) => date_of(t),
            None => None,
        }),
        n.updated_at == date_of(entry.updated),
        n.feed_id == feed_id,
{
}

impl NewFeed {
    /// The feed to store for an RSS channel fetched from `url`: the channel's
    /// title, link and description, the URL, and the time of the call.
    pub fn from_rss(feed: &RssChannel, url: &str) -> (r: NewFeed)
        ensures
            r.title@ == feed.title@,
            r.site_link@ == feed.link@,
            r.feed_link@ == url@,
            text_of(r.description) == Some(feed.description@),
    {
        NewFeed {
            title: feed.title.clone(),
            site_link: feed.link.clone(),
            feed_link: url.to_owned(),
            description: Some(feed.description.clone()),
            updated_at: now(),
        }
    }

    /// The feed to store for an Atom feed fetched from `url`: its title, its
    /// first link's target, the URL, its subtitle, and the time of the call.
    /// The feed must have a link.
    pub fn from_atom(feed: &AtomFeed, url: &str) -> (r: NewFeed)
        requires
            feed.link is Some,
        ensures
            r.title@ == feed.title@,
            Some(r.site_link@) == text_of(feed.link),
            r.feed_link@ == url@,
            text_of(r.description) == text_of(feed.subtitle),
    {
        NewFeed {
            title: feed.title.clone(),
            site_link: match &feed.link {
                Some(l) => l.clone(),
                None => String::new(),
            },
            feed_link: url.to_owned(),
            description: copy_text(&feed.subtitle),
            updated_at: now(),
        }
    }
}

impl NewItem {
    /// The item to store for an RSS item of feed `feed_id`. The item must have
    /// a guid, a title and a link.
    pub fn from_item(item: &RssItem, feed_id: i32) -> (r: NewItem)
        requires
            rss_item_complete(item@),
        ensures
            item_from_rss(r, item@, feed_id),
            item@.guid == Some(r.guid@),
            item@.title == Some(r.title@),
            item@.link == Some(r.link@),
            text_of(r.summary) == item@.description,
            text_of(r.content) == item@.content,
            r.published_at == (match item@.pub_date {
                Some(t) => date_of(t),
                None => None,
            }),
            r.updated_at == r.published_at,
            r.feed_id == feed_id,
    {
        let guid = match &item.guid {
            Some(g) => g.clone(),
            None => String::new(),
        };
        let title = match &item.title {
            Some(t) => t.clone(),
            None => String::new(),
        };
        let link = match &item.link {
            Some(l) => l.clone(),
            None => String::new(),
        };
        let published_at = match &item.pub_date {
            Some(d) => parse_date(d.as_str()),
            None => None,
        };
        let updated_at = match &item.pub_date {
            Some(d) => parse_date(d.as_str()),
            None => None,
        };
        NewItem {
            guid,
            title,
            link,
            summary: copy_text(&item.description),
            content: copy_text(&item.content),
            published_at,
            updated_at,
            feed_id,
        }
    }

    /// The item to store for an Atom entry of feed `feed_id`. The entry must
    /// have a link.
    pub fn from_entry(item: &AtomEntry, feed_id: i32) -> (r: NewItem)
        requires
            item.link is Some,
        ensures
            item_from_atom(r, item@, feed_id),
            r.guid@ == item@.id,
            r.title@ == item@.title,
            item@.link == Some(r.link@),
            text_of(r.summary) == item@.summary,
            text_of(r.content) == item@.content,
            r.published_at == (match item@.published {
                Some(t) => date_of(t),
                None => None,
            }),
            r.updated_at == date_of(item@.updated),
            r.feed_id == feed_id,
    {
        NewItem {
            guid: item.id.clone(),
            title: item.title.clone(),
            link: match &item.link {
                Some(l) => l.clone(),
                None => String::new(),
            },
            summary: copy_text(&item.summary),
            content: copy_text(&item.content),
            published_at: match &item.published {
                Some(d) => parse_date(d.as_str()),
                None => None,
            },
            updated_at: parse_date(item.updated.as_str()),
            feed_id,
        }
    }
}

/// The text kept for a password: the standard Base64 text of the SHA-256
/// digest of its UTF-8 bytes.
pub open spec fn password_text(pass: Seq<char>) -> Seq<char> {
    base64_text(sha256_digest(encode_utf8(pass)))
}

/// Whether a stored hash accepts the password: it decodes from Base64 to
/// the SHA-256 digest of the password's UTF-8 bytes.
pub open spec fn password_matches(hash: Seq<u8>, pass: Seq<char>) -> bool {
    base64_decoded(hash) == Some(sha256_digest(encode_utf8(pass)))
}

/// What `check_user` answers for the user the store found, if any.
pub open spec fn checked_user(user: Option<User>, pass: Seq<char>) -> Option<User> {
    match user {
        Some(u) => if password_matches(u.password_hash@, pass) {
            Some(u)
        } else {
            None
        },
        None => None,
    }
}

impl User {
    /// The text to keep as the hash of a password.
    pub fn hash_pw(s: &str) -> (r: String)
        ensures
            r@ == password_text(s@),
            r@.len() == 44,
    {
        let digest = sha256(s.as_bytes());
        proof {
            lemma_base64_text_len(digest@);
        }
        base64_encode(digest.as_slice())
    }

    /// Whether the password is this user's. The stored hash must be Base64.
    fn verifies(&self, pass: &str) -> (r: bool)
        requires
            base64_decoded(self.password_hash@) is Some,
        ensures
            r == password_matches(self.password_hash@, pass@),
            self.password_hash@ == encode_utf8(password_text(pass@)) ==> r,
            forall|p: Seq<char>|
                self.password_hash@ == encode_utf8(#[trigger] password_text(p)) ==> base64_decoded(
                    self.password_hash@,
                ) == Some(sha256_digest(encode_utf8(p))),
    {
        let hashed = sha256(pass.as_bytes());
        match base64_decode(self.password_hash.as_slice()) {
            Some(orig_hash) => same_bytes(orig_hash.as_slice(), hashed.as_slice()),
            None => false,
        }
    }

    /// The user the store found under the name given at login, if the
    /// password is theirs; `None` otherwise. A stored hash must be Base64.
    /// A user whose stored hash is the bytes of `hash_pw` of the password
    /// always passes; where it is `hash_pw` of some password `p`, another
    /// password passes exactly when its SHA-256 digest is that of `p`.
    pub fn check_user(user: Option<User>, pass: &str) -> (r: Option<User>)
        requires
            user matches Some(u) ==> base64_decoded(u.password_hash@) is Some,
        ensures
            r == checked_user(user, pass@),
            user matches Some(u) ==> (u.password_hash@ == encode_utf8(password_text(pass@)) ==> r
                == Some(u)),
            user matches Some(u) ==> forall|p: Seq<char>|
                u.password_hash@ == encode_utf8(#[trigger] password_text(p)) ==> (r is Some
                    <==> sha256_digest(encode_utf8(p)) == sha256_digest(encode_utf8(pass@))),
    {
        match user {
            Some(u) => if u.verifies(pass) {
                Some(u)
            } else {
                None
            },
            None => None,
        }
    }

    /// `check_user` where the stored hash is Base64 (or no user was found);
    /// `Err(())` where a stored hash is not Base64. A user whose stored hash
    /// is `hash_pw` of a password `p` is found (`Ok(Some(..))`) exactly for the
    /// passwords whose SHA-256 digest is that of `p`, and refused (`Ok(None)`)
    /// for every other.
    pub fn check_stored_user(user: Option<User>, pass: &str) -> (r: Result<Option<User>, ()>)
        ensures
            r is Err <==> (user matches Some(u) && base64_decoded(u.password_hash@) is None),
            r matches Ok(v) ==> v == checked_user(user, pass@),
            user matches Some(u) ==> forall|p: Seq<char>|
                u.password_hash@ == encode_utf8(#[trigger] password_text(p)) ==> (r matches Ok(v)
                    && (v is Some <==> sha256_digest(encode_utf8(p)) == sha256_digest(
                    encode_utf8(pass@),
                ))),
    {
        match user {
            Some(u) => {
                match base64_decode(u.password_hash.as_slice()) {
                    Some(_) => Ok(User::check_user(Some(u), pass)),
                    None => Err(()),
                }
            },
            None => Ok(None),
        }
    }
}

} // verus!
