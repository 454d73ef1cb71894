use tranquility::clean::Clean;
use tranquility::consts::PUBLIC_IDENTIFIER;
use tranquility::fetcher::{classify_entity, normalize_fetched_activity, EntityKind};
use tranquility::model::{
    Activity, ActivityObject, Actor, Entity, Object, ObjectField, PublicKey,
};

pub fn actor(id: &str) -> Actor {
    Actor {
        id: id.to_string(),
        kind: "Person".to_string(),
        username: "alice".to_string(),
        name: "<b>Alice</b><script>x()</script>".to_string(),
        summary: "hi<script>alert(1)</script>".to_string(),
        inbox: format!("{}/inbox", id),
        outbox: format!("{}/outbox", id),
        followers: format!("{}/followers", id),
        following: format!("{}/following", id),
        public_key: PublicKey {
            id: format!("{}#main-key", id),
            owner: id.to_string(),
            public_key_pem: String::new(),
        },
        icon: None,
        image: None,
    }
}

pub fn object(id: &str, author: &str, to: &[&str], cc: &[&str]) -> Object {
    Object {
        id: id.to_string(),
        kind: "Note".to_string(),
        summary: String::new(),
        content: "hello<script>evil()</script>".to_string(),
        sensitive: false,
        published: "2021-01-01T00:00:00Z".to_string(),
        attributed_to: author.to_string(),
        tag: Vec::new(),
        to: to.iter().map(|s| s.to_string()).collect(),
        cc: cc.iter().map(|s| s.to_string()).collect(),
    }
}

fn activity(kind: &str, actor: &str, object: ObjectField, to: &[&str], cc: &[&str]) -> Activity {
    Activity {
        id: "https://x.example/objects/1".to_string(),
        kind: kind.to_string(),
        actor: actor.to_string(),
        object,
        published: "2021-01-01T00:00:00Z".to_string(),
        to: to.iter().map(|s| s.to_string()).collect(),
        cc: cc.iter().map(|s| s.to_string()).collect(),
    }
}

#[test]
fn clean_strips_scripts_from_content() {
    let mut o = object("https://x.example/objects/2", "https://x.example/users/a", &[], &[]);
    o.content = "XSS<script>attack</script>".to_string();
    o.clean();
    assert_eq!(o.content, "XSS");
}

#[test]
fn clean_actor_sanitises_name_and_summary_only() {
    let mut a = actor("https://x.example/users/a");
    a.clean();
    assert_eq!(a.name, "<b>Alice</b>");
    assert_eq!(a.summary, "hi");
    assert_eq!(a.id, "https://x.example/users/a");
    assert_eq!(a.username, "alice");
}

#[test]
fn clean_object_sanitises_summary_and_content() {
    let mut o = object("https://x.example/objects/9", "https://x.example/users/a", &[], &[]);
    o.summary = "<script>s</script>cw".to_string();
    o.clean();
    assert_eq!(o.content, "hello");
    assert_eq!(o.summary, "cw");
    assert_eq!(o.attributed_to, "https://x.example/users/a");
}

#[test]
fn privacy_follows_the_public_collection() {
    let public = activity("Create", "a", ObjectField::Url("u".into()), &[PUBLIC_IDENTIFIER], &[]);
    assert!(!public.is_private());
    assert!(!public.is_unlisted());
    let unlisted = activity("Create", "a", ObjectField::Url("u".into()), &["f"], &[PUBLIC_IDENTIFIER]);
    assert!(!unlisted.is_private());
    assert!(unlisted.is_unlisted());
    let private = activity("Create", "a", ObjectField::Url("u".into()), &["f"], &["g"]);
    assert!(private.is_private());
    assert!(!private.is_unlisted());
    let stored = ActivityObject::Object(object("o", "a", &["f"], &[]));
    assert!(stored.is_private());
    let stored = ActivityObject::Activity(public);
    assert!(!stored.is_private());
}

#[test]
fn entity_ownership_uses_the_author_field() {
    let by_activity = Entity::Activity(activity("Like", "https://a", ObjectField::Url("u".into()), &[], &[]));
    assert!(by_activity.is_owned_by("https://a"));
    assert!(!by_activity.is_owned_by("https://b"));
    let by_actor = Entity::Actor(actor("https://a"));
    assert!(by_actor.is_owned_by("https://a"));
    let by_object = Entity::Object(object("o", "https://b", &[], &[]));
    assert!(by_object.is_owned_by("https://b"));
    assert!(!by_object.is_owned_by("https://a"));
}

#[test]
fn entity_conversions_pick_their_variant() {
    assert!(Entity::Actor(actor("a")).into_actor().is_some());
    assert!(Entity::Actor(actor("a")).into_object().is_none());
    assert!(Entity::Object(object("o", "a", &[], &[])).into_object().is_some());
    let a = activity("Like", "a", ObjectField::Url("u".into()), &[], &[]);
    assert!(Entity::Activity(a).into_activity().is_some());
}

#[test]
fn classify_entity_by_type_and_object_field() {
    assert!(matches!(classify_entity(Some("Person"), true), Ok(EntityKind::Actor)));
    assert!(matches!(classify_entity(Some("Create"), true), Ok(EntityKind::Activity)));
    assert!(matches!(classify_entity(Some("Note"), false), Ok(EntityKind::Object)));
    assert!(matches!(classify_entity(None, true), Err(tranquility::error::Error::Fetch)));
}

#[test]
fn normalize_fetched_activity_replaces_embedded_objects() {
    let o = object("https://r.example/o/1", "https://r.example/u", &[], &[]);
    let a = activity("Create", "https://r.example/u", ObjectField::Object(o), &[], &[]);
    let (normalized, stored) = normalize_fetched_activity(a).unwrap();
    match normalized.object {
        ObjectField::Url(u) => assert_eq!(u, "https://r.example/o/1"),
        _ => panic!("expected a URL"),
    }
    assert_eq!(stored.unwrap().content, "hello");

    let a = activity("Follow", "x", ObjectField::Actor(actor("y")), &[], &[]);
    assert!(matches!(normalize_fetched_activity(a), Err(tranquility::error::Error::UnknownActivity)));

    let a = activity("Like", "x", ObjectField::Url("z".into()), &[], &[]);
    let (same, stored) = normalize_fetched_activity(a).unwrap();
    assert!(stored.is_none());
    assert!(matches!(same.object, ObjectField::Url(ref u) if u == "z"));
}
