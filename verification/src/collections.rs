//! Pages of the followers, following and outbox collections.
use vstd::prelude::*;
use vstd::string::*;
use crate::ids::{format_uuid, uuid_simple};
use crate::model::{Activity, FollowActivity, ObjectField, private_addressing};

verus! {

/// The number of activities on one collection page.
pub const ACTIVITIES_PER_PAGE: i64 = 10;

/// The type of a collection page.
pub const OUTBOX_FOLLOW_COLLECTIONS_PAGE_TYPE: &'static str = "OrderedCollectionPage";

/// An item of a collection: a URL or an embedded activity.
#[derive(Debug)]
pub enum Item {
    Url(String),
    Activity(Activity),
}

/// A page of an ordered collection.
#[derive(Debug)]
pub struct Collection {
    pub kind: String,
    pub id: String,
    pub part_of: String,
    pub next: String,
    pub ordered_items: Vec<Item>,
}

/// The followers page lists, for every stored follow activity that could be
/// decoded, the follow activity's identifier.
pub open spec fn follower_items_spec(d: Seq<Option<FollowActivity>>) -> Seq<Item>
    decreases d.len(),
{
    if d.len() == 0 {
        Seq::empty()
    } else {
        let rest = follower_items_spec(d.drop_last());
        match d.last() {
            Some(f) => rest.push(Item::Url(f.activity.id)),
            None => rest,
        }
    }
}

/// The following page lists, for every stored follow activity that could be
/// decoded and references the followed actor by URL, that URL.
pub open spec fn followed_items_spec(d: Seq<Option<FollowActivity>>) -> Seq<Item>
    decreases d.len(),
{
    if d.len() == 0 {
        Seq::empty()
    } else {
        let rest = followed_items_spec(d.drop_last());
        match d.last() {
            Some(f) => match f.activity.object {
                ObjectField::Url(u) => rest.push(Item::Url(u)),
                _ => rest,
            },
            None => rest,
        }
    }
}

/// The outbox page lists every stored activity that could be decoded and
/// is not private.
pub open spec fn outbox_items_spec(d: Seq<Option<Activity>>) -> Seq<Item>
    decreases d.len(),
{
    if d.len() == 0 {
        Seq::empty()
    } else {
        let rest = outbox_items_spec(d.drop_last());
        match d.last() {
            Some(a) => if private_addressing(a.to.deep_view(), a.cc.deep_view()) {
                rest
            } else {
                rest.push(Item::Activity(a))
            },
            None => rest,
        }
    }
}

/// An outbox page holds no private activity: every item is an activity that
/// was decoded from a row and is not private, and every decoded activity
/// that is not private is on the page.
pub proof fn law_outbox_lists_only_public_activities(decoded: Seq<Option<Activity>>)
    ensures
        forall|i: int| 0 <= i < outbox_items_spec(decoded).len() ==> match #[trigger] outbox_items_spec(decoded)[i] {
            Item::Activity(a) => !private_addressing(a.to.deep_view(), a.cc.deep_view())
                && decoded.contains(Some(a)),
            Item::Url(_) => false,
        },
        forall|j: int| 0 <= j < decoded.len() ==> match #[trigger] decoded[j] {
            Some(a) => !private_addressing(a.to.deep_view(), a.cc.deep_view())
                ==> outbox_items_spec(decoded).contains(Item::Activity(a)),
            None => true,
        },
    decreases decoded.len(),
{
    if decoded.len() > 0 {
        let init = decoded.drop_last();
        law_outbox_lists_only_public_activities(init);
        let items = outbox_items_spec(decoded);
        let rest = outbox_items_spec(init);
        assert forall|i: int| 0 <= i < items.len() implies match #[trigger] items[i] {
            Item::Activity(a) => !private_addressing(a.to.deep_view(), a.cc.deep_view())
                && decoded.contains(Some(a)),
            Item::Url(_) => false,
        } by {
            if i < rest.len() {
                assert(items[i] == rest[i]);
                match rest[i] {
                    Item::Activity(a) => {
                        let k = choose|k: int| 0 <= k < init.len() && init[k] == Some(a);
                        assert(decoded[k] == Some(a));
                    },
                    Item::Url(_) => {},
                }
            } else {
                assert(decoded[decoded.len() - 1] == decoded.last());
            }
        }
        assert forall|j: int| 0 <= j < decoded.len() implies match #[trigger] decoded[j] {
            Some(a) => !private_addressing(a.to.deep_view(), a.cc.deep_view())
                ==> items.contains(Item::Activity(a)),
            None => true,
        } by {
            if j < init.len() {
                assert(decoded[j] == init[j]);
                match init[j] {
                    Some(a) => {
                        if !private_addressing(a.to.deep_view(), a.cc.deep_view()) {
                            let k = choose|k: int| 0 <= k < rest.len() && rest[k] == Item::Activity(a);
                            assert(items[k] == rest[k]);
                        }
                    },
                    None => {},
                }
            } else {
                match decoded.last() {
                    Some(a) => {
                        if !private_addressing(a.to.deep_view(), a.cc.deep_view()) {
                            assert(items[items.len() - 1] == Item::Activity(a));
                        }
                    },
                    None => {},
                }
            }
        }
    }
}

/// The items of a followers page; `None` stands for a row that could not be decoded.
pub fn follower_items(decoded: Vec<Option<FollowActivity>>) -> (r: Vec<Item>)
    ensures
        r@ == follower_items_spec(decoded@),
{
    let ghost orig = decoded@;
    let mut rows = decoded;
    let mut out: Vec<Item> = Vec::new();
    let mut k: usize = 0;
    let total = rows.len();
    while rows.len() > 0
        invariant
            k <= orig.len(),
            orig.len() == total,
            rows@ == orig.skip(k as int),
            out@ == follower_items_spec(orig.take(k as int)),
        decreases rows.len(),
    {
        let row = rows.remove(0);
        proof {
            assert(orig.take(k + 1).drop_last() =~= orig.take(k as int));
            assert(orig.take(k + 1).last() == row);
        }
        match row {
            Some(f) => out.push(Item::Url(f.activity.id)),
            None => {},
        }
        proof {
            assert(rows@ =~= orig.skip(k + 1));
        }
        k += 1;
    }
    proof {
        assert(orig.take(k as int) =~= orig);
    }
    out
}

/// The items of a following page; `None` stands for a row that could not be decoded.
pub fn followed_items(decoded: Vec<Option<FollowActivity>>) -> (r: Vec<Item>)
    ensures
        r@ == followed_items_spec(decoded@),
{
    let ghost orig = decoded@;
    let mut rows = decoded;
    let mut out: Vec<Item> = Vec::new();
    let mut k: usize = 0;
    let total = rows.len();
    while rows.len() > 0
        invariant
            k <= orig.len(),
            orig.len() == total,
            rows@ == orig.skip(k as int),
            out@ == followed_items_spec(orig.take(k as int)),
        decreases rows.len(),
    {
        let row = rows.remove(0);
        proof {
            assert(orig.take(k + 1).drop_last() =~= orig.take(k as int));
            assert(orig.take(k + 1).last() == row);
        }
        match row {
            Some(f) => match f.activity.object {
                ObjectField::Url(u) => out.push(Item::Url(u)),
                _ => {},
            },
            None => {},
        }
        proof {
            assert(rows@ =~= orig.skip(k + 1));
        }
        k += 1;
    }
    proof {
        assert(orig.take(k as int) =~= orig);
    }
    out
}

/// The items of an outbox page; `None` stands for a row that could not be decoded.
pub fn outbox_items(decoded: Vec<Option<Activity>>) -> (r: Vec<Item>)
    ensures
        r@ == outbox_items_spec(decoded@),
{
    let ghost orig = decoded@;
    let mut rows = decoded;
    let mut out: Vec<Item> = Vec::new();
    let mut k: usize = 0;
    let total = rows.len();
    while rows.len() > 0
        invariant
            k <= orig.len(),
            orig.len() == total,
            rows@ == orig.skip(k as int),
            out@ == outbox_items_spec(orig.take(k as int)),
        decreases rows.len(),
    {
        let row = rows.remove(0);
        proof {
            assert(orig.take(k + 1).drop_last() =~= orig.take(k as int));
            assert(orig.take(k + 1).last() == row);
        }
        match row {
            Some(a) => {
                if !a.is_private() {
                    out.push(Item::Activity(a));
                }
            },
            None => {},
        }
        proof {
            assert(rows@ =~= orig.skip(k + 1));
        }
        k += 1;
    }
    proof {
        assert(orig.take(k as int) =~= orig);
    }
    out
}

/// The identifier of the last row of a page, if the page has rows.
pub fn last_row_id(row_ids: &Vec<u128>) -> (r: Option<u128>)
    ensures
        r == if row_ids@.len() == 0 { None::<u128> } else { Some(row_ids@.last()) },
{
    if row_ids.len() == 0 {
        None
    } else {
        Some(row_ids[row_ids.len() - 1])
    }
}

/// The `last_id` query value: the last row's identifier, or empty.
pub open spec fn last_id_text(last_row: Option<u128>) -> Seq<char> {
    match last_row {
        Some(id) => uuid_simple(id),
        None => Seq::empty(),
    }
}

/// Assemble a collection page: it is part of the collection at
/// `collection_url` and links to the next page after the last row.
pub fn collection_page(collection_url: &str, last_row: Option<u128>, items: Vec<Item>) -> (r: Collection)
    ensures
        r.kind@ == OUTBOX_FOLLOW_COLLECTIONS_PAGE_TYPE@,
        r.id@ == collection_url@,
        r.part_of@ == collection_url@,
        r.next@ == collection_url@ + "?last_id="@ + last_id_text(last_row),
        r.ordered_items == items,
{
    let last_id = match last_row {
        Some(id) => format_uuid(id),
        None => String::new(),
    };
    let next = String::from_str(collection_url).concat("?last_id=").concat(last_id.as_str());
    Collection {
        kind: String::from_str(OUTBOX_FOLLOW_COLLECTIONS_PAGE_TYPE),
        id: String::from_str(collection_url),
        part_of: String::from_str(collection_url),
        next,
        ordered_items: items,
    }
}

} // verus!
