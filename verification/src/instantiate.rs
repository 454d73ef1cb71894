//! Construction of the activities, actors and objects the server publishes.
use vstd::prelude::*;
use vstd::string::*;
use crate::config::Configuration;
use crate::model::{Activity, Actor, Object, ObjectField, PublicKey, Tag};
use crate::ids::{format_uuid, new_uuid_v4, uuid_simple, lemma_uuid_simple_injective};
use crate::clock::{current_datetime, rfc3339_utc_seconds};

verus! {

/// `https://{domain}`: the prefix of every URL of the instance.
pub open spec fn instance_prefix(domain: Seq<char>) -> Seq<char> {
    "https://"@ + domain
}

/// The URL of an object or activity with the given identifier.
pub open spec fn object_url(domain: Seq<char>, id: u128) -> Seq<char> {
    instance_prefix(domain) + "/objects/"@ + uuid_simple(id)
}

/// Activities and objects instantiated with distinct identifiers get
/// distinct URLs, so the URL of a stored activity or object finds it alone.
pub proof fn law_distinct_ids_give_distinct_urls(domain: Seq<char>, a: u128, b: u128)
    requires
        a != b,
    ensures
        object_url(domain, a) != object_url(domain, b),
{
    if object_url(domain, a) == object_url(domain, b) {
        let prefix = instance_prefix(domain) + "/objects/"@;
        assert(object_url(domain, a).skip(prefix.len() as int) =~= uuid_simple(a));
        assert(object_url(domain, b).skip(prefix.len() as int) =~= uuid_simple(b));
        lemma_uuid_simple_injective(a, b);
    }
}

/// The URL of the local user with the given (formatted) identifier.
pub open spec fn user_url(domain: Seq<char>, user_id: Seq<char>) -> Seq<char> {
    instance_prefix(domain) + "/users/"@ + user_id
}

/// `a` is the activity instantiated from these values.
pub open spec fn activity_built(
    domain: Seq<char>,
    kind: Seq<char>,
    owner_url: Seq<char>,
    object: ObjectField,
    to: Vec<String>,
    cc: Vec<String>,
    id: u128,
    published: Seq<char>,
    a: Activity,
) -> bool {
    &&& a.id@ == object_url(domain, id)
    &&& a.kind@ == kind
    &&& a.actor@ == owner_url
    &&& a.object == object
    &&& a.published@ == published
    &&& a.to == to
    &&& a.cc == cc
}

/// `o` is the object instantiated from these values.
pub open spec fn object_built(
    domain: Seq<char>,
    owner_url: Seq<char>,
    summary: Seq<char>,
    content: Seq<char>,
    tags: Option<Vec<Tag>>,
    sensitive: bool,
    to: Vec<String>,
    cc: Vec<String>,
    id: u128,
    published: Seq<char>,
    o: Object,
) -> bool {
    &&& o.id@ == object_url(domain, id)
    &&& o.kind@ == "Note"@
    &&& o.summary@ == summary
    &&& o.content@ == content
    &&& o.tag@ == match tags {
        Some(t) => t@,
        None => Seq::<Tag>::empty(),
    }
    &&& o.sensitive == sensitive
    &&& o.published@ == published
    &&& o.attributed_to@ == owner_url
    &&& o.to == to
    &&& o.cc == cc
}

fn instance_prefix_of(config: &Configuration) -> (r: String)
    ensures
        r@ == instance_prefix(config.instance.domain@),
{
    String::from_str("https://").concat(config.instance.domain.as_str())
}

fn object_url_of(config: &Configuration, id: u128) -> (r: String)
    ensures
        r@ == object_url(config.instance.domain@, id),
{
    let uuid = format_uuid(id);
    instance_prefix_of(config).concat("/objects/").concat(uuid.as_str())
}

/// Instantiate an activity with the given identifier and publication time.
pub fn activity_with(
    config: &Configuration,
    kind: &str,
    owner_url: &str,
    object: ObjectField,
    to: Vec<String>,
    cc: Vec<String>,
    id: u128,
    published: String,
) -> (r: Activity)
    ensures
        activity_built(config.instance.domain@, kind@, owner_url@, object, to, cc, id, published@, r),
{
    Activity {
        id: object_url_of(config, id),
        kind: String::from_str(kind),
        actor: String::from_str(owner_url),
        object,
        published,
        to,
        cc,
    }
}

/// Instantiate an ActivityPub activity with a fresh identifier, published now.
pub fn activity(
    config: &Configuration,
    kind: &str,
    owner_url: &str,
    object: ObjectField,
    to: Vec<String>,
    cc: Vec<String>,
) -> (r: (u128, Activity))
    ensures
        activity_built(config.instance.domain@, kind@, owner_url@, object, to, cc, r.0, r.1.published@, r.1),
        rfc3339_utc_seconds(r.1.published@),
{
    let id = new_uuid_v4();
    let published = current_datetime();
    (id, activity_with(config, kind, owner_url, object, to, cc, id, published))
}

/// Instantiate an ActivityPub actor
pub fn actor(config: &Configuration, user_id: &str, username: &str, public_key_pem: String) -> (r: Actor)
    ensures
        r.id@ == user_url(config.instance.domain@, user_id@),
        r.kind@ == "Person"@,
        r.username@ == username@,
        r.name@ == Seq::<char>::empty(),
        r.summary@ == Seq::<char>::empty(),
        r.inbox@ == r.id@ + "/inbox"@,
        r.outbox@ == r.id@ + "/outbox"@,
        r.followers@ == r.id@ + "/followers"@,
        r.following@ == r.id@ + "/following"@,
        r.public_key.id@ == r.id@ + "#main-key"@,
        r.public_key.owner@ == r.id@,
        r.public_key.public_key_pem == public_key_pem,
        r.icon is None,
        r.image is None,
{
    let id = instance_prefix_of(config).concat("/users/").concat(user_id);
    let inbox = id.clone().concat("/inbox");
    let outbox = id.clone().concat("/outbox");
    let followers = id.clone().concat("/followers");
    let following = id.clone().concat("/following");
    let key_id = id.clone().concat("#main-key");
    let public_key = PublicKey { id: key_id, owner: id.clone(), public_key_pem };
    Actor {
        id,
        kind: String::from_str("Person"),
        username: String::from_str(username),
        name: String::new(),
        summary: String::new(),
        inbox,
        outbox,
        followers,
        following,
        public_key,
        icon: None,
        image: None,
    }
}

/// Instantiate a note with the given identifier and publication time.
pub fn object_with(
    config: &Configuration,
    owner_url: &str,
    summary: &str,
    content: &str,
    tags: Option<Vec<Tag>>,
    sensitive: bool,
    to: Vec<String>,
    cc: Vec<String>,
    id: u128,
    published: String,
) -> (r: Object)
    ensures
        object_built(config.instance.domain@, owner_url@, summary@, content@, tags, sensitive, to, cc, id, published@, r),
{
    let tag = match tags {
        Some(t) => t,
        None => Vec::new(),
    };
    Object {
        id: object_url_of(config, id),
        kind: String::from_str("Note"),
        summary: String::from_str(summary),
        content: String::from_str(content),
        sensitive,
        published,
        attributed_to: String::from_str(owner_url),
        tag,
        to,
        cc,
    }
}

/// Instantiate an ActivityPub object (a note) with a fresh identifier, published now.
pub fn object(
    config: &Configuration,
    owner_url: &str,
    summary: &str,
    content: &str,
    tags: Option<Vec<Tag>>,
    sensitive: bool,
    to: Vec<String>,
    cc: Vec<String>,
) -> (r: (u128, Object))
    ensures
        object_built(config.instance.domain@, owner_url@, summary@, content@, tags, sensitive, to, cc, r.0, r.1.published@, r.1),
        rfc3339_utc_seconds(r.1.published@),
{
    let id = new_uuid_v4();
    let published = current_datetime();
    (id, object_with(config, owner_url, summary, content, tags, sensitive, to, cc, id, published))
}

} // verus!
