use tranquility::collections::{
    collection_page, followed_items, follower_items, last_row_id, outbox_items, Item,
    ACTIVITIES_PER_PAGE, OUTBOX_FOLLOW_COLLECTIONS_PAGE_TYPE,
};
use tranquility::consts::PUBLIC_IDENTIFIER;
use tranquility::model::{Activity, FollowActivity, ObjectField};

fn activity(id: &str, kind: &str, object: &str, to: &[&str], cc: &[&str]) -> Activity {
    Activity {
        id: id.to_string(),
        kind: kind.to_string(),
        actor: "https://a.example/users/alice".to_string(),
        object: ObjectField::Url(object.to_string()),
        published: "2021-01-01T00:00:00Z".to_string(),
        to: to.iter().map(|s| s.to_string()).collect(),
        cc: cc.iter().map(|s| s.to_string()).collect(),
    }
}

fn ids(items: &[Item]) -> Vec<String> {
    items
        .iter()
        .map(|i| match i {
            Item::Url(u) => u.clone(),
            Item::Activity(a) => a.id.clone(),
        })
        .collect()
}

#[test]
fn outbox_lists_public_and_unlisted_activities_only() {
    let rows = vec![
        Some(activity("p1", "Create", "o1", &[PUBLIC_IDENTIFIER], &[])),
        Some(activity("d1", "Create", "o2", &["https://b.example/users/bob"], &[])),
        None,
        Some(activity("u1", "Create", "o3", &[], &[PUBLIC_IDENTIFIER])),
    ];
    let items = outbox_items(rows);
    assert_eq!(ids(&items), vec!["p1".to_string(), "u1".to_string()]);
    assert!(items.iter().all(|i| matches!(i, Item::Activity(_))));
}

#[test]
fn outbox_of_only_private_activities_is_empty() {
    let rows = vec![Some(activity("d1", "Create", "o2", &["x"], &["y"]))];
    assert!(outbox_items(rows).is_empty());
}

#[test]
fn follower_and_followed_items() {
    let rows = || {
        vec![
            Some(FollowActivity { activity: activity("f1", "Follow", "https://b.example/users/bob", &[], &[]), approved: true }),
            None,
            Some(FollowActivity { activity: activity("f2", "Follow", "https://c.example/users/carol", &[], &[]), approved: true }),
        ]
    };
    assert_eq!(ids(&follower_items(rows())), vec!["f1".to_string(), "f2".to_string()]);
    assert_eq!(
        ids(&followed_items(rows())),
        vec!["https://b.example/users/bob".to_string(), "https://c.example/users/carol".to_string()]
    );
}

#[test]
fn last_row_id_of_a_page() {
    assert_eq!(last_row_id(&Vec::new()), None);
    assert_eq!(last_row_id(&vec![3u128, 1, 7]), Some(7));
}

#[test]
fn collection_page_links_to_the_next_page() {
    let url = "https://a.example/users/1/outbox";
    let page = collection_page(url, Some(0x0123456789abcdef0123456789abcdefu128), Vec::new());
    assert_eq!(page.kind, OUTBOX_FOLLOW_COLLECTIONS_PAGE_TYPE);
    assert_eq!(page.kind, "OrderedCollectionPage");
    assert_eq!(page.id, url);
    assert_eq!(page.part_of, url);
    assert_eq!(page.next, "https://a.example/users/1/outbox?last_id=0123456789abcdef0123456789abcdef");
    let empty = collection_page(url, None, Vec::new());
    assert_eq!(empty.next, "https://a.example/users/1/outbox?last_id=");
    assert_eq!(ACTIVITIES_PER_PAGE, 10);
}
