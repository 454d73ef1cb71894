use tranquility::error::Error;
use tranquility::handlers::{
    approve_follow, judge_reject, plan_create, plan_delete, plan_follow, plan_update, referenced_url,
    CreatePlan, DeletePlan, RejectOutcome,
};
use tranquility::inbox::{
    begin_ownership_check, finish_ownership_check, handler_for, HandlerKind, OwnershipStep,
};
use tranquility::model::{Activity, Actor, Entity, FollowActivity, Object, ObjectField, PublicKey};

const ALICE: &str = "https://a.example/users/alice";
const BOB: &str = "https://b.example/users/bob";

fn actor(id: &str) -> Actor {
    Actor {
        id: id.to_string(),
        kind: "Person".to_string(),
        username: "alice".to_string(),
        name: "Alice<script>x()</script>".to_string(),
        summary: "<p>about</p><script>y()</script>".to_string(),
        inbox: format!("{}/inbox", id),
        outbox: format!("{}/outbox", id),
        followers: format!("{}/followers", id),
        following: format!("{}/following", id),
        public_key: PublicKey {
            id: format!("{}#main-key", id),
            owner: id.to_string(),
            public_key_pem: String::new(),
        },
        icon: None,
        image: None,
    }
}

fn object(id: &str, author: &str) -> Object {
    Object {
        id: id.to_string(),
        kind: "Note".to_string(),
        summary: "cw<script>z()</script>".to_string(),
        content: "hello<script>evil()</script>".to_string(),
        sensitive: true,
        published: "2021-01-01T00:00:00Z".to_string(),
        attributed_to: author.to_string(),
        tag: Vec::new(),
        to: vec![BOB.to_string()],
        cc: Vec::new(),
    }
}

fn activity(kind: &str, actor: &str, object: ObjectField) -> Activity {
    Activity {
        id: "https://a.example/objects/1".to_string(),
        kind: kind.to_string(),
        actor: actor.to_string(),
        object,
        published: "2021-01-01T00:00:00Z".to_string(),
        to: vec![BOB.to_string()],
        cc: Vec::new(),
    }
}

fn url(u: &str) -> ObjectField {
    ObjectField::Url(u.to_string())
}

#[test]
fn handler_for_dispatches_every_known_type() {
    assert!(matches!(handler_for("Accept"), Ok(HandlerKind::Accept)));
    assert!(matches!(handler_for("Announce"), Ok(HandlerKind::Announce)));
    assert!(matches!(handler_for("Create"), Ok(HandlerKind::Create)));
    assert!(matches!(handler_for("Delete"), Ok(HandlerKind::Delete)));
    assert!(matches!(handler_for("Follow"), Ok(HandlerKind::Follow)));
    assert!(matches!(handler_for("Like"), Ok(HandlerKind::Like)));
    assert!(matches!(handler_for("Reject"), Ok(HandlerKind::Reject)));
    assert!(matches!(handler_for("Undo"), Ok(HandlerKind::Undo)));
    assert!(matches!(handler_for("Update"), Ok(HandlerKind::Update)));
}

#[test]
fn handler_for_refuses_unknown_types() {
    assert!(matches!(handler_for("Move"), Err(Error::UnknownActivity)));
    assert!(matches!(handler_for("follow"), Err(Error::UnknownActivity)));
    assert!(matches!(handler_for(""), Err(Error::UnknownActivity)));
}

#[test]
fn ownership_exempts_follow_and_announce() {
    let a = activity("Follow", ALICE, url(BOB));
    assert!(matches!(begin_ownership_check(a), OwnershipStep::Decided(Ok(_))));
    let a = activity("Announce", ALICE, ObjectField::Object(object("https://b.example/objects/9", BOB)));
    assert!(matches!(begin_ownership_check(a), OwnershipStep::Decided(Ok(_))));
}

#[test]
fn ownership_of_embedded_entities() {
    let a = activity("Update", ALICE, ObjectField::Actor(actor(ALICE)));
    assert!(matches!(begin_ownership_check(a), OwnershipStep::Decided(Ok(_))));
    let a = activity("Update", ALICE, ObjectField::Actor(actor(BOB)));
    assert!(matches!(begin_ownership_check(a), OwnershipStep::Decided(Err(Error::Unauthorized))));
    let a = activity("Create", ALICE, ObjectField::Object(object("https://a.example/objects/2", ALICE)));
    assert!(matches!(begin_ownership_check(a), OwnershipStep::Decided(Ok(_))));
    let a = activity("Create", ALICE, ObjectField::Object(object("https://a.example/objects/2", BOB)));
    assert!(matches!(begin_ownership_check(a), OwnershipStep::Decided(Err(Error::Unauthorized))));
}

#[test]
fn ownership_of_referenced_entities_needs_a_fetch() {
    let a = activity("Delete", ALICE, url("https://a.example/objects/3"));
    match begin_ownership_check(a) {
        OwnershipStep::FetchReferenced(a, u) => {
            assert_eq!(u, "https://a.example/objects/3");
            let own = Entity::Object(object("https://a.example/objects/3", ALICE));
            assert!(finish_ownership_check(a, &own).is_ok());
        }
        other => panic!("unexpected step {:?}", other),
    }
    let a = activity("Delete", ALICE, url("https://b.example/objects/4"));
    let foreign = Entity::Object(object("https://b.example/objects/4", BOB));
    assert!(matches!(finish_ownership_check(a, &foreign), Err(Error::Unauthorized)));
    let a = activity("Undo", ALICE, url("https://a.example/objects/5"));
    let own_activity = Entity::Activity(activity("Like", ALICE, url("https://b.example/objects/4")));
    assert!(finish_ownership_check(a, &own_activity).is_ok());
    let a = activity("Update", ALICE, url(ALICE));
    assert!(finish_ownership_check(a, &Entity::Actor(actor(ALICE))).is_ok());
}

#[test]
fn referenced_url_only_accepts_urls() {
    let a = activity("Like", ALICE, url("https://b.example/objects/4"));
    assert_eq!(referenced_url(&a).unwrap(), "https://b.example/objects/4");
    let a = activity("Like", ALICE, ObjectField::Actor(actor(BOB)));
    assert!(matches!(referenced_url(&a), Err(Error::UnknownActivity)));
}

#[test]
fn approve_follow_checks_the_accepting_actor() {
    let accept = activity("Accept", BOB, url("https://a.example/objects/1"));
    let follow = FollowActivity { activity: activity("Follow", ALICE, url(BOB)), approved: false };
    let approved = approve_follow(&accept, follow).unwrap();
    assert!(approved.approved);
    assert_eq!(approved.activity.actor, ALICE);

    let stranger = activity("Accept", ALICE, url("https://a.example/objects/1"));
    let follow = FollowActivity { activity: activity("Follow", ALICE, url(BOB)), approved: false };
    assert!(matches!(approve_follow(&stranger, follow), Err(Error::Unauthorized)));

    let like = FollowActivity { activity: activity("Like", ALICE, url(BOB)), approved: false };
    assert!(matches!(approve_follow(&accept, like), Err(Error::UnknownActivity)));
}

#[test]
fn judge_reject_outcomes() {
    let follow = activity("Follow", ALICE, url(BOB));
    let reject = activity("Reject", BOB, url("https://a.example/objects/1"));
    assert!(matches!(judge_reject(&reject, &follow), Ok(RejectOutcome::DeleteFollow)));
    let stranger = activity("Reject", ALICE, url("https://a.example/objects/1"));
    assert!(matches!(judge_reject(&stranger, &follow), Ok(RejectOutcome::Unauthorized)));
    let like = activity("Like", ALICE, url(BOB));
    assert!(matches!(judge_reject(&reject, &like), Err(Error::UnknownActivity)));
}

#[test]
fn plan_create_cleans_embedded_objects() {
    let a = activity("Create", ALICE, ObjectField::Object(object("https://a.example/objects/2", ALICE)));
    match plan_create(a).unwrap() {
        CreatePlan::StoreObject { author, object } => {
            assert_eq!(author, ALICE);
            assert_eq!(object.content, "hello");
            assert_eq!(object.summary, "cw");
            assert_eq!(object.id, "https://a.example/objects/2");
            assert!(object.sensitive);
        }
        other => panic!("unexpected plan {:?}", other),
    }
    let a = activity("Create", ALICE, url("https://a.example/objects/2"));
    assert!(matches!(plan_create(a), Ok(CreatePlan::FetchObject(ref u)) if u == "https://a.example/objects/2"));
    let a = activity("Create", ALICE, ObjectField::Actor(actor(ALICE)));
    assert!(matches!(plan_create(a), Err(Error::UnknownActivity)));
}

#[test]
fn plan_delete_by_embedded_id_or_fetch() {
    let a = activity("Delete", ALICE, ObjectField::Object(object("https://a.example/objects/2", ALICE)));
    assert!(matches!(plan_delete(a), Ok(DeletePlan::DeleteUrl(ref u)) if u == "https://a.example/objects/2"));
    let a = activity("Delete", ALICE, url("https://a.example/objects/3"));
    assert!(matches!(plan_delete(a), Ok(DeletePlan::FetchThenDelete(ref u)) if u == "https://a.example/objects/3"));
    let a = activity("Delete", ALICE, ObjectField::Actor(actor(ALICE)));
    assert!(matches!(plan_delete(a), Err(Error::UnknownActivity)));
}

#[test]
fn plan_follow_normalises_embedded_actors() {
    let a = activity("Follow", ALICE, ObjectField::Actor(actor(BOB)));
    let plan = plan_follow(a).unwrap();
    assert_eq!(plan.followed, BOB);
    assert_eq!(plan.owner, ALICE);
    assert!(plan.follow.approved);
    assert!(matches!(plan.follow.activity.object, ObjectField::Url(ref u) if u == BOB));
    assert_eq!(plan.follow.activity.actor, ALICE);

    let a = activity("Follow", ALICE, url(BOB));
    let plan = plan_follow(a).unwrap();
    assert_eq!(plan.followed, BOB);
    assert_eq!(plan.owner, ALICE);
    assert!(plan.follow.approved);

    let a = activity("Follow", ALICE, ObjectField::Object(object("https://b.example/objects/1", BOB)));
    assert!(matches!(plan_follow(a), Err(Error::UnknownActivity)));
}

#[test]
fn plan_update_cleans_the_actor() {
    let a = activity("Update", ALICE, ObjectField::Actor(actor(ALICE)));
    let updated = plan_update(a).unwrap();
    assert_eq!(updated.name, "Alice");
    assert_eq!(updated.summary, "<p>about</p>");
    assert_eq!(updated.id, ALICE);
    let a = activity("Update", ALICE, url(ALICE));
    assert!(matches!(plan_update(a), Err(Error::UnknownActivity)));
}
