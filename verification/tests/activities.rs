use tranquility::config::{
    Configuration, ConfigurationEmail, ConfigurationInstance, ConfigurationJaeger,
    ConfigurationRatelimit, ConfigurationServer, ConfigurationTls,
};
use tranquility::consts::PUBLIC_IDENTIFIER;
use tranquility::error::Error;
use tranquility::handlers::{accept_follow, follow_accept, plan_follow};
use tranquility::instantiate::{activity, activity_with, actor, object, object_with};
use tranquility::interactions::{follow_activity_for, undo_activity_for};
use tranquility::mastodon::{create_activity_for, status_note, CreateForm};
use tranquility::model::{Activity, ObjectField, Tag};

#[allow(dead_code)]
fn config(closed: bool) -> Configuration {
    Configuration {
        email: ConfigurationEmail {
            active: false,
            server: String::new(),
            starttls: false,
            email: String::new(),
            username: String::new(),
            password: String::new(),
        },
        instance: ConfigurationInstance {
            closed_registrations: closed,
            domain: "social.example".to_string(),
            description: "A test instance".to_string(),
            character_limit: 500,
            upload_limit: 4,
            moderators: Vec::new(),
        },
        jaeger: ConfigurationJaeger { active: false, host: String::new(), port: 0 },
        ratelimit: ConfigurationRatelimit { active: false, authentication_quota: 1, registration_quota: 1 },
        server: ConfigurationServer { interface: "0.0.0.0".to_string(), port: 8080, database_url: String::new() },
        tls: ConfigurationTls { serve_tls_directly: false, certificate: String::new(), secret_key: String::new() },
    }
}

const ALICE: &str = "https://social.example/users/alice";
const BOB: &str = "https://b.example/users/bob";

fn strings(items: &[&str]) -> Vec<String> {
    items.iter().map(|s| s.to_string()).collect()
}

#[test]
fn activity_with_builds_the_object_url() {
    let a = activity_with(
        &config(false),
        "Like",
        ALICE,
        ObjectField::Url("https://b.example/objects/1".to_string()),
        strings(&[BOB]),
        strings(&[PUBLIC_IDENTIFIER]),
        0x00112233445566778899aabbccddeeffu128,
        "2021-06-01T12:00:00Z".to_string(),
    );
    assert_eq!(a.id, "https://social.example/objects/00112233445566778899aabbccddeeff");
    assert_eq!(a.kind, "Like");
    assert_eq!(a.actor, ALICE);
    assert!(matches!(a.object, ObjectField::Url(ref u) if u == "https://b.example/objects/1"));
    assert_eq!(a.published, "2021-06-01T12:00:00Z");
    assert_eq!(a.to, strings(&[BOB]));
    assert_eq!(a.cc, strings(&[PUBLIC_IDENTIFIER]));
}

#[test]
fn object_ids_are_formatted_in_full() {
    let a = activity_with(&config(false), "Like", ALICE, ObjectField::Url(String::new()), Vec::new(), Vec::new(), 0, String::new());
    assert_eq!(a.id, "https://social.example/objects/00000000000000000000000000000000");
    let a = activity_with(&config(false), "Like", ALICE, ObjectField::Url(String::new()), Vec::new(), Vec::new(), u128::MAX, String::new());
    assert_eq!(a.id, "https://social.example/objects/ffffffffffffffffffffffffffffffff");
}

#[test]
fn fresh_activities_get_fresh_ids() {
    let (id1, a1) = activity(&config(false), "Follow", ALICE, ObjectField::Url(BOB.to_string()), Vec::new(), Vec::new());
    let (id2, a2) = activity(&config(false), "Follow", ALICE, ObjectField::Url(BOB.to_string()), Vec::new(), Vec::new());
    assert_ne!(id1, id2);
    assert_ne!(a1.id, a2.id);
    assert_eq!(a1.id, format!("https://social.example/objects/{:032x}", id1));
    assert!(!a1.published.is_empty());
}

#[test]
fn actor_urls_hang_off_the_user_url() {
    let a = actor(&config(false), "alice", "alice", "PEM".to_string());
    assert_eq!(a.id, ALICE);
    assert_eq!(a.kind, "Person");
    assert_eq!(a.inbox, "https://social.example/users/alice/inbox");
    assert_eq!(a.outbox, "https://social.example/users/alice/outbox");
    assert_eq!(a.followers, "https://social.example/users/alice/followers");
    assert_eq!(a.following, "https://social.example/users/alice/following");
    assert_eq!(a.public_key.id, "https://social.example/users/alice#main-key");
    assert_eq!(a.public_key.owner, ALICE);
    assert_eq!(a.name, "");
    assert!(a.icon.is_none() && a.image.is_none());
}

#[test]
fn object_with_builds_a_note() {
    let tags = vec![Tag { kind: "Mention".to_string(), name: "@bob".to_string(), href: BOB.to_string() }];
    let o = object_with(&config(false), ALICE, "cw", "hello", Some(tags), true, strings(&[BOB]), Vec::new(), 5, "t".to_string());
    assert_eq!(o.id, "https://social.example/objects/00000000000000000000000000000005");
    assert_eq!(o.kind, "Note");
    assert_eq!(o.summary, "cw");
    assert_eq!(o.content, "hello");
    assert_eq!(o.tag.len(), 1);
    assert_eq!(o.tag[0].name, "@bob");
    assert!(o.sensitive);
    assert_eq!(o.attributed_to, ALICE);
    let (id, o) = object(&config(false), ALICE, "", "hi", None, false, Vec::new(), Vec::new());
    assert!(o.tag.is_empty());
    assert_eq!(o.id, format!("https://social.example/objects/{:032x}", id));
}

#[test]
fn following_an_already_followed_actor_sends_nothing() {
    assert!(follow_activity_for(&config(false), ALICE, BOB, true).is_none());
}

#[test]
fn follow_activity_is_addressed_to_the_followed_actor() {
    let (id, f) = follow_activity_for(&config(false), ALICE, BOB, false).unwrap();
    assert_eq!(f.id, format!("https://social.example/objects/{:032x}", id));
    assert_eq!(f.kind, "Follow");
    assert_eq!(f.actor, ALICE);
    assert!(matches!(f.object, ObjectField::Url(ref u) if u == BOB));
    assert_eq!(f.to, strings(&[BOB]));
    assert!(f.cc.is_empty());
}

#[test]
fn only_the_owner_undoes_an_activity() {
    let (_, f) = follow_activity_for(&config(false), ALICE, BOB, false).unwrap();
    let original_id = f.id.clone();
    let (_, undo) = undo_activity_for(&config(false), 7, ALICE, 7, f).unwrap();
    assert_eq!(undo.kind, "Undo");
    assert_eq!(undo.actor, ALICE);
    assert!(matches!(undo.object, ObjectField::Url(ref u) if *u == original_id));
    assert_eq!(undo.to, strings(&[BOB]));

    let (_, f) = follow_activity_for(&config(false), ALICE, BOB, false).unwrap();
    assert!(matches!(undo_activity_for(&config(false), 7, ALICE, 8, f), Err(Error::Unauthorized)));
}

#[test]
fn accept_follow_references_the_follow() {
    let (_, a) = accept_follow(&config(false), ALICE, "https://b.example/objects/f1", BOB);
    assert_eq!(a.kind, "Accept");
    assert_eq!(a.actor, ALICE);
    assert!(matches!(a.object, ObjectField::Url(ref u) if u == "https://b.example/objects/f1"));
    assert_eq!(a.to, strings(&[BOB]));
    assert!(a.cc.is_empty());
}

#[test]
fn a_new_status_is_public_and_clean() {
    let author = actor(&config(false), "alice", "alice", String::new());
    let form = CreateForm {
        status: "hello<script>evil()</script>".to_string(),
        sensitive: false,
        spoiler_text: String::new(),
    };
    let (id, note) = status_note(&config(false), &author, &form);
    assert_eq!(note.id, format!("https://social.example/objects/{:032x}", id));
    assert_eq!(note.content, "hello");
    assert_eq!(note.attributed_to, ALICE);
    assert_eq!(note.to, strings(&[PUBLIC_IDENTIFIER, "https://social.example/users/alice/followers"]));
    assert!(note.cc.is_empty());

    let (_, create) = create_activity_for(&config(false), ALICE, &note);
    assert_eq!(create.kind, "Create");
    assert_eq!(create.actor, ALICE);
    assert_eq!(create.to, note.to);
    match create.object {
        ObjectField::Object(o) => {
            assert_eq!(o.id, note.id);
            assert_eq!(o.content, "hello");
        }
        other => panic!("unexpected object {:?}", other),
    }
}

#[test]
fn distinct_ids_give_distinct_urls() {
    let url = |id: u128| {
        activity_with(&config(false), "Like", ALICE, ObjectField::Url(String::new()), Vec::new(), Vec::new(), id, String::new()).id
    };
    assert_ne!(url(1), url(16));
    assert_ne!(url(0x10), url(0x100));
    assert_eq!(url(42), url(42));
}

#[test]
fn a_new_status_is_delivered_to_the_followers_only() {
    let author = actor(&config(false), "alice", "alice", String::new());
    let form = CreateForm { status: "hi".to_string(), sensitive: false, spoiler_text: String::new() };
    let (_, note) = status_note(&config(false), &author, &form);
    let recipients = tranquility::recipients::recipient_list(note.to.clone(), note.cc.clone());
    assert_eq!(recipients, strings(&["https://social.example/users/alice/followers"]));
}

fn is_rfc3339_utc_seconds(s: &str) -> bool {
    let b = s.as_bytes();
    let n = b.len();
    if n < 20 {
        return false;
    }
    let digits = |i: usize| b[i].is_ascii_digit();
    let year_ok = n - 16 == 4 && (0..4).all(digits);
    year_ok
        && b[n - 16] == b'-' && digits(n - 15) && digits(n - 14)
        && b[n - 13] == b'-' && digits(n - 12) && digits(n - 11)
        && b[n - 10] == b'T' && digits(n - 9) && digits(n - 8)
        && b[n - 7] == b':' && digits(n - 6) && digits(n - 5)
        && b[n - 4] == b':' && digits(n - 3) && digits(n - 2)
        && b[n - 1] == b'Z'
}

#[test]
fn publication_times_are_rfc3339_utc_seconds() {
    let (_, a) = activity(&config(false), "Follow", ALICE, ObjectField::Url(BOB.to_string()), Vec::new(), Vec::new());
    assert!(is_rfc3339_utc_seconds(&a.published), "{}", a.published);
    let (_, o) = object(&config(false), ALICE, "", "hi", None, false, Vec::new(), Vec::new());
    assert!(is_rfc3339_utc_seconds(&o.published), "{}", o.published);
}

#[test]
fn the_create_activity_carries_the_whole_note() {
    let tags = vec![Tag { kind: "Hashtag".to_string(), name: "#x".to_string(), href: "https://social.example/tags/x".to_string() }];
    let note = object_with(&config(false), ALICE, "cw", "hello", Some(tags), true, strings(&[BOB]), strings(&[PUBLIC_IDENTIFIER]), 9, "2021-06-01T12:00:00Z".to_string());
    let (_, create) = create_activity_for(&config(false), ALICE, &note);
    assert!(is_rfc3339_utc_seconds(&create.published));
    match create.object {
        ObjectField::Object(o) => {
            assert_eq!(o.id, note.id);
            assert_eq!(o.kind, "Note");
            assert!(o.sensitive);
            assert_eq!(o.published, "2021-06-01T12:00:00Z");
            assert_eq!(o.summary, "cw");
            assert_eq!(o.tag.len(), 1);
            assert_eq!(o.tag[0].href, "https://social.example/tags/x");
            assert_eq!(o.cc, strings(&[PUBLIC_IDENTIFIER]));
        }
        other => panic!("unexpected object {:?}", other),
    }
}

fn remote_follow(object: ObjectField) -> Activity {
    Activity {
        id: "https://b.example/objects/f1".to_string(),
        kind: "Follow".to_string(),
        actor: BOB.to_string(),
        object,
        published: "2021-01-01T00:00:00Z".to_string(),
        to: strings(&[ALICE]),
        cc: Vec::new(),
    }
}

#[test]
fn a_follow_is_stored_under_the_follower() {
    let plan = plan_follow(remote_follow(ObjectField::Url(ALICE.to_string()))).unwrap();
    assert_eq!(plan.followed, ALICE);
    assert_eq!(plan.owner, BOB);
    assert!(plan.follow.approved);
}

#[test]
fn a_local_followed_actor_accepts_and_answers_the_follower() {
    let plan = plan_follow(remote_follow(ObjectField::Url(ALICE.to_string()))).unwrap();
    let (id, accept) = follow_accept(&config(false), &plan, true).unwrap();
    assert_eq!(accept.id, format!("https://social.example/objects/{:032x}", id));
    assert_eq!(accept.kind, "Accept");
    assert_eq!(accept.actor, ALICE);
    assert!(matches!(accept.object, ObjectField::Url(ref u) if u == "https://b.example/objects/f1"));
    assert_eq!(accept.to, strings(&[BOB]));
    assert!(accept.cc.is_empty());
    assert!(follow_accept(&config(false), &plan, false).is_none());
}
