//! The JSON endpoints: what they answer for what the store gave back.
use vstd::prelude::*;

use crate::models::{SubscribedFeed, SubscribedItem};
use crate::time::{parse_rfc3339, rfc3339_instant, Timestamp};
use crate::web::Rejection;

verus! {

/// The answer to a request for a user's feeds: the feeds the store gave
/// back, or not found.
pub fn show_feeds(feeds: Option<Vec<SubscribedFeed>>) -> (r: Result<Vec<SubscribedFeed>, Rejection>)
    ensures
        feeds matches Some(f) ==> (r matches Ok(g) && g@ == f@),
        feeds is None ==> r == Err::<Vec<SubscribedFeed>, Rejection>(Rejection::NotFound),
{
    match feeds {
        Some(feeds) => Ok(feeds),
        None => Err(Rejection::NotFound),
    }
}

/// The answer to a request for one item: the item the store gave back,
/// marked seen, or a bad request.
pub fn show_item(got_item: Option<SubscribedItem>) -> (r: Result<SubscribedItem, Rejection>)
    ensures
        got_item matches Some(d) ==> r == Ok::<SubscribedItem, Rejection>(
            SubscribedItem { seen: true, ..d },
        ),
        got_item is None ==> r == Err::<SubscribedItem, Rejection>(Rejection::BadRequest),
{
    match got_item {
        Some(mut data) => {
            data.seen = true;
            Ok(data)
        },
        None => Err(Rejection::BadRequest),
    }
}

/// The `updated` query parameter of a request for items: no bound where it
/// is absent, the instant it names in RFC 3339 where it parses, a rejection
/// (not found) where it does not.
pub fn parse_updated(updated: Option<&str>) -> (r: Result<Option<Timestamp>, Rejection>)
    ensures
        updated is None ==> r == Ok::<Option<Timestamp>, Rejection>(None),
        updated matches Some(d) ==> match rfc3339_instant(d@) {
            Some(t) => r == Ok::<Option<Timestamp>, Rejection>(Some(t)),
            None => r == Err::<Option<Timestamp>, Rejection>(Rejection::NotFound),
        },
{
    match updated {
        Some(d) => match parse_rfc3339(d) {
            Some(t) => Ok(Some(t)),
            None => Err(Rejection::NotFound),
        },
        None => Ok(None),
    }
}

/// The answer to a request for a feed's items: the items the store gave
/// back, or not found.
pub fn show_items(data: Option<Vec<SubscribedItem>>) -> (r: Result<Vec<SubscribedItem>, Rejection>)
    ensures
        data matches Some(d) ==> (r matches Ok(e) && e@ == d@),
        data is None ==> r == Err::<Vec<SubscribedItem>, Rejection>(Rejection::NotFound),
{
    match data {
        Some(data) => Ok(data),
        None => Err(Rejection::NotFound),
    }
}

} // verus!
