//! What the reader computes from rows it has read from its store.
use vstd::prelude::*;

verus! {

/// The users subscribed to a feed, in the order of the subscription rows
/// `(feed_id, user_id)`.
pub open spec fn subscribers_of(subscribed: Seq<(i32, i32)>, feed_id: i32) -> Seq<i32>
    decreases subscribed.len(),
{
    if subscribed.len() == 0 {
        Seq::empty()
    } else {
        let rest = subscribers_of(subscribed.drop_last(), feed_id);
        if subscribed.last().0 == feed_id {
            rest.push(subscribed.last().1)
        } else {
            rest
        }
    }
}

/// Whether some subscription row names this feed.
pub open spec fn has_subscriber(subscribed: Seq<(i32, i32)>, feed_id: i32) -> bool {
    exists|k: int| 0 <= k < subscribed.len() && (#[trigger] subscribed[k]).0 == feed_id
}

/// No feed id occurs twice among the feed rows.
pub open spec fn distinct_feed_ids(feeds: Seq<(i32, String)>) -> bool {
    forall|i: int, j: int|
        0 <= i < j < feeds.len() ==> (#[trigger] feeds[i]).0 != (#[trigger] feeds[j]).0
}

/// Every feed lists its subscribers exactly when a subscription row names it.
pub proof fn lemma_subscribers_nonempty(subscribed: Seq<(i32, i32)>, feed_id: i32)
    ensures
        subscribers_of(subscribed, feed_id).len() > 0 <==> has_subscriber(subscribed, feed_id),
    decreases subscribed.len(),
{
    if subscribed.len() > 0 {
        let prev = subscribed.drop_last();
        lemma_subscribers_nonempty(prev, feed_id);
        if has_subscriber(prev, feed_id) {
            let k = choose|k: int| 0 <= k < prev.len() && (#[trigger] prev[k]).0 == feed_id;
            assert(subscribed[k] == prev[k]);
        }
        if has_subscriber(subscribed, feed_id) && subscribed.last().0 != feed_id {
            let k = choose|k: int| 0 <= k < subscribed.len() && (#[trigger] subscribed[k]).0
                == feed_id;
            assert(prev[k] == subscribed[k]);
        }
    }
}

/// A user is among a feed's subscribers exactly when a subscription row
/// pairs the feed with the user, and the list has one entry per such row.
pub proof fn lemma_subscribers_of_rows(subscribed: Seq<(i32, i32)>, feed_id: i32, user_id: i32)
    ensures
        subscribers_of(subscribed, feed_id).contains(user_id) <==> exists|k: int|
            0 <= k < subscribed.len() && #[trigger] subscribed[k] == (feed_id, user_id),
        subscribers_of(subscribed, feed_id).len() <= subscribed.len(),
    decreases subscribed.len(),
{
    if subscribed.len() > 0 {
        let prev = subscribed.drop_last();
        let last = subscribed.last();
        lemma_subscribers_of_rows(prev, feed_id, user_id);
        let rest = subscribers_of(prev, feed_id);
        let all = subscribers_of(subscribed, feed_id);
        if all.contains(user_id) {
            let i = choose|i: int| 0 <= i < all.len() && all[i] == user_id;
            if last.0 == feed_id && i == rest.len() {
                assert(subscribed[subscribed.len() - 1] == (feed_id, user_id));
            } else {
                assert(rest[i] == user_id);
                let k = choose|k: int| 0 <= k < prev.len() && #[trigger] prev[k] == (feed_id, user_id);
                assert(subscribed[k] == prev[k]);
            }
        }
        if exists|k: int| 0 <= k < subscribed.len() && #[trigger] subscribed[k] == (feed_id, user_id) {
            let k = choose|k: int| 0 <= k < subscribed.len() && #[trigger] subscribed[k] == (feed_id, user_id);
            if k == subscribed.len() - 1 {
                assert(all[all.len() - 1] == user_id);
            } else {
                assert(prev[k] == subscribed[k]);
                let i = choose|i: int| 0 <= i < rest.len() && rest[i] == user_id;
                assert(all[i] == user_id);
            }
        }
    }
}

/// A feed's subscribers are the users of the subscription rows that name
/// the feed, one per row, in the order of the rows.
pub proof fn lemma_subscribers_are_rows(subscribed: Seq<(i32, i32)>, feed_id: i32)
    ensures
        subscribers_of(subscribed, feed_id) == subscribed.filter(
            |row: (i32, i32)| row.0 == feed_id,
        ).map_values(|row: (i32, i32)| row.1),
    decreases subscribed.len(),
{
    reveal_with_fuel(Seq::filter, 1);
    if subscribed.len() > 0 {
        let pred = |row: (i32, i32)| row.0 == feed_id;
        let f = |row: (i32, i32)| row.1;
        lemma_subscribers_are_rows(subscribed.drop_last(), feed_id);
        let prev = subscribed.drop_last().filter(pred);
        if pred(subscribed.last()) {
            assert(prev.push(subscribed.last()).map_values(f) =~= prev.map_values(f).push(
                subscribed.last().1,
            ));
        }
    }
}

/// Collects, for one feed, the users subscribed to it.
fn collect_subscribers(subscribed: &Vec<(i32, i32)>, feed_id: i32) -> (r: Vec<i32>)
    ensures
        r@ == subscribers_of(subscribed@, feed_id),
{
    let mut users: Vec<i32> = Vec::new();
    let mut k: usize = 0;
    while k < subscribed.len()
        invariant
            k <= subscribed.len(),
            users@ == subscribers_of(subscribed@.take(k as int), feed_id),
        decreases subscribed.len() - k,
    {
        let (fid, uid) = subscribed[k];
        if fid == feed_id {
            users.push(uid);
        }
        k = k + 1;
        assert(subscribed@.take(k as int).drop_last() =~= subscribed@.take(k as int - 1));
    }
    assert(subscribed@.take(k as int) =~= subscribed@);
    users
}

/// The feeds to refresh, each with its URL and its subscribers: for every
/// feed row `(id, feed_link)`, in order, the users of the subscription rows
/// `(feed_id, user_id)` that name it, in their order. Every feed must have a
/// subscriber and no feed id may occur twice; the store's reading of these
/// rows fails otherwise.
pub fn get_channel_urls_and_subscribers(
    feeds: Vec<(i32, String)>,
    subscribed: Vec<(i32, i32)>,
) -> (r: Vec<(i32, String, Vec<i32>)>)
    requires
        distinct_feed_ids(feeds@),
        forall|i: int| 0 <= i < feeds.len() ==> has_subscriber(subscribed@, (#[trigger] feeds@[i]).0),
    ensures
        r.len() == feeds.len(),
        forall|i: int|
            0 <= i < r.len() ==> {
                &&& (#[trigger] r@[i]).0 == feeds@[i].0
                &&& r@[i].1@ == feeds@[i].1@
                &&& r@[i].2@ == subscribers_of(subscribed@, feeds@[i].0)
                &&& r@[i].2@.len() > 0
            },
{
    let mut out: Vec<(i32, String, Vec<i32>)> = Vec::new();
    let mut i: usize = 0;
    while i < feeds.len()
        invariant
            i <= feeds.len(),
            out.len() == i,
            forall|i: int| 0 <= i < feeds.len() ==> has_subscriber(subscribed@, (#[trigger] feeds@[i]).0),
            forall|j: int|
                0 <= j < i ==> {
                    &&& (#[trigger] out@[j]).0 == feeds@[j].0
                    &&& out@[j].1@ == feeds@[j].1@
                    &&& out@[j].2@ == subscribers_of(subscribed@, feeds@[j].0)
                    &&& out@[j].2@.len() > 0
                },
        decreases feeds.len() - i,
    {
        let id = feeds[i].0;
        let url = feeds[i].1.clone();
        let users = collect_subscribers(&subscribed, id);
        proof {
            lemma_subscribers_nonempty(subscribed@, id);
        }
        out.push((id, url, users));
        i = i + 1;
    }
    out
}

} // verus!
