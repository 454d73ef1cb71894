//! The ActivityPub entities the server stores, receives and sends, as plain
//! values, with the predicates the rest of the library decides by.
use vstd::prelude::*;
use vstd::string::*;
use crate::consts::{PUBLIC_IDENTIFIER, public_identifier};
use crate::text::{contains_text, copy_texts};

verus! {

/// The public key of an actor, in PEM format.
#[derive(Debug)]
pub struct PublicKey {
    pub id: String,
    pub owner: String,
    pub public_key_pem: String,
}

/// A media attachment (an actor's icon or header image).
#[derive(Debug)]
pub struct Attachment {
    pub kind: String,
    pub url: String,
}

/// A tag of an object (a mention or a hashtag).
#[derive(Debug)]
pub struct Tag {
    pub kind: String,
    pub name: String,
    pub href: String,
}

/// An ActivityPub actor.
#[derive(Debug)]
pub struct Actor {
    pub id: String,
    pub kind: String,
    pub username: String,
    pub name: String,
    pub summary: String,
    pub inbox: String,
    pub outbox: String,
    pub followers: String,
    pub following: String,
    pub public_key: PublicKey,
    pub icon: Option<Attachment>,
    pub image: Option<Attachment>,
}

/// An ActivityPub object (a note).
#[derive(Debug)]
pub struct Object {
    pub id: String,
    pub kind: String,
    pub summary: String,
    pub content: String,
    pub sensitive: bool,
    pub published: String,
    pub attributed_to: String,
    pub tag: Vec<Tag>,
    pub to: Vec<String>,
    pub cc: Vec<String>,
}

/// The `object` field of an activity: an embedded actor, an embedded object
/// or the URL of either.
#[derive(Debug)]
pub enum ObjectField {
    Actor(Actor),
    Object(Object),
    Url(String),
}

/// An ActivityPub activity.
#[derive(Debug)]
pub struct Activity {
    pub id: String,
    pub kind: String,
    pub actor: String,
    pub object: ObjectField,
    pub published: String,
    pub to: Vec<String>,
    pub cc: Vec<String>,
}

/// A follow activity together with whether the followed actor approved it.
#[derive(Debug)]
pub struct FollowActivity {
    pub activity: Activity,
    pub approved: bool,
}

/// A stored value that is either an activity or an object.
#[derive(Debug)]
pub enum ActivityObject {
    Activity(Activity),
    Object(Object),
}

/// Any ActivityPub entity that can be fetched from a remote server.
#[derive(Debug)]
pub enum Entity {
    Activity(Activity),
    Actor(Actor),
    Object(Object),
}

/// A tag as plain values: kind, name and link.
pub open spec fn tag_view(t: Tag) -> (Seq<char>, Seq<char>, Seq<char>) {
    (t.kind@, t.name@, t.href@)
}

/// The tags as plain values.
pub open spec fn tag_views(s: Seq<Tag>) -> Seq<(Seq<char>, Seq<char>, Seq<char>)> {
    s.map_values(|t: Tag| tag_view(t))
}

impl Tag {
    /// A copy of the tag.
    pub fn duplicate(&self) -> (r: Tag)
        ensures
            tag_view(r) == tag_view(*self),
    {
        Tag { kind: self.kind.clone(), name: self.name.clone(), href: self.href.clone() }
    }
}

fn duplicate_tags(v: &Vec<Tag>) -> (r: Vec<Tag>)
    ensures
        r@.map_values(|t: Tag| tag_view(t)) == tag_views(v@),
{
    let mut out: Vec<Tag> = Vec::new();
    let mut i: usize = 0;
    while i < v.len()
        invariant
            0 <= i <= v.len(),
            tag_views(out@) == tag_views(v@.take(i as int)),
        decreases v.len() - i,
    {
        let ghost before = out@;
        let t = v[i].duplicate();
        out.push(t);
        proof {
            assert(out@ == before.push(t));
            assert(tag_views(before).len() == before.len());
            assert(tag_views(v@.take(i as int)).len() == i);
            assert(before.len() == i);
            assert forall|k: int| 0 <= k < i + 1 implies #[trigger] tag_views(out@)[k]
                == tag_views(v@.take(i + 1))[k] by {
                if k < i {
                    assert(out@[k] == before[k]);
                    assert(tag_views(before)[k] == tag_views(v@.take(i as int))[k]);
                }
            }
            assert(tag_views(out@) =~= tag_views(v@.take(i + 1)));
        }
        i += 1;
    }
    proof {
        assert(v@.take(v@.len() as int) =~= v@);
    }
    out
}

impl Object {
    /// A copy of the object: every field keeps its value.
    pub fn duplicate(&self) -> (r: Object)
        ensures
            r.id@ == self.id@,
            r.kind@ == self.kind@,
            r.summary@ == self.summary@,
            r.content@ == self.content@,
            r.sensitive == self.sensitive,
            r.published@ == self.published@,
            r.attributed_to@ == self.attributed_to@,
            tag_views(r.tag@) == tag_views(self.tag@),
            r.to.deep_view() == self.to.deep_view(),
            r.cc.deep_view() == self.cc.deep_view(),
    {
        Object {
            id: self.id.clone(),
            kind: self.kind.clone(),
            summary: self.summary.clone(),
            content: self.content.clone(),
            sensitive: self.sensitive,
            published: self.published.clone(),
            attributed_to: self.attributed_to.clone(),
            tag: duplicate_tags(&self.tag),
            to: copy_texts(&self.to),
            cc: copy_texts(&self.cc),
        }
    }
}

impl ObjectField {
    /// The URL, when the field holds one.
    pub open spec fn url_of(&self) -> Option<Seq<char>> {
        match self {
            ObjectField::Url(u) => Some(u@),
            _ => None,
        }
    }

    /// The URL held by the field, if any.
    pub fn as_url(&self) -> (r: Option<&String>)
        ensures
            match r {
                Some(u) => self.url_of() == Some(u@),
                None => self.url_of() is None,
            },
    {
        match self {
            ObjectField::Url(u) => Some(u),
            _ => None,
        }
    }
}

/// Addressed neither directly nor in copy to the public collection.
pub open spec fn private_addressing(to: Seq<Seq<char>>, cc: Seq<Seq<char>>) -> bool {
    !to.contains(public_identifier()) && !cc.contains(public_identifier())
}

/// Not addressed to the public collection directly, only in copy.
pub open spec fn unlisted_addressing(to: Seq<Seq<char>>, cc: Seq<Seq<char>>) -> bool {
    !to.contains(public_identifier()) && cc.contains(public_identifier())
}

/// Whatever its addressing, an activity or object is never both private and
/// unlisted.
pub proof fn law_private_and_unlisted_are_exclusive(to: Seq<Seq<char>>, cc: Seq<Seq<char>>)
    ensures
        !(private_addressing(to, cc) && unlisted_addressing(to, cc)),
{
}

fn addressing_contains_public(v: &Vec<String>) -> (r: bool)
    ensures
        r == v.deep_view().contains(public_identifier()),
{
    let p = String::from_str(PUBLIC_IDENTIFIER);
    contains_text(v, &p)
}

impl Activity {
    /// Whether the activity is private (not addressed to the public collection).
    pub fn is_private(&self) -> (r: bool)
        ensures
            r == private_addressing(self.to.deep_view(), self.cc.deep_view()),
    {
        !addressing_contains_public(&self.to) && !addressing_contains_public(&self.cc)
    }

    /// Whether the activity is unlisted (the public collection only in copy).
    pub fn is_unlisted(&self) -> (r: bool)
        ensures
            r == unlisted_addressing(self.to.deep_view(), self.cc.deep_view()),
    {
        !addressing_contains_public(&self.to) && addressing_contains_public(&self.cc)
    }
}

impl Object {
    /// Whether the object is private (not addressed to the public collection).
    pub fn is_private(&self) -> (r: bool)
        ensures
            r == private_addressing(self.to.deep_view(), self.cc.deep_view()),
    {
        !addressing_contains_public(&self.to) && !addressing_contains_public(&self.cc)
    }

    /// Whether the object is unlisted (the public collection only in copy).
    pub fn is_unlisted(&self) -> (r: bool)
        ensures
            r == unlisted_addressing(self.to.deep_view(), self.cc.deep_view()),
    {
        !addressing_contains_public(&self.to) && addressing_contains_public(&self.cc)
    }
}

impl ActivityObject {
    /// Privacy of the stored value, by its addressing.
    pub open spec fn private_spec(&self) -> bool {
        match self {
            ActivityObject::Activity(a) => private_addressing(a.to.deep_view(), a.cc.deep_view()),
            ActivityObject::Object(o) => private_addressing(o.to.deep_view(), o.cc.deep_view()),
        }
    }

    /// Whether the stored activity or object is private.
    pub fn is_private(&self) -> (r: bool)
        ensures
            r == self.private_spec(),
    {
        match self {
            ActivityObject::Activity(a) => a.is_private(),
            ActivityObject::Object(o) => o.is_private(),
        }
    }

    /// Whether the stored activity or object is unlisted.
    pub fn is_unlisted(&self) -> (r: bool)
        ensures
            r == match self {
                ActivityObject::Activity(a) => unlisted_addressing(a.to.deep_view(), a.cc.deep_view()),
                ActivityObject::Object(o) => unlisted_addressing(o.to.deep_view(), o.cc.deep_view()),
            },
    {
        match self {
            ActivityObject::Activity(a) => a.is_unlisted(),
            ActivityObject::Object(o) => o.is_unlisted(),
        }
    }
}

/// The identifier of an entity's author: an activity's `actor`, an actor's
/// own `id`, an object's `attributedTo`.
pub open spec fn entity_owner(e: Entity) -> Seq<char> {
    match e {
        Entity::Activity(a) => a.actor@,
        Entity::Actor(a) => a.id@,
        Entity::Object(o) => o.attributed_to@,
    }
}

impl Entity {
    /// The activity, if the entity is one.
    pub fn into_activity(self) -> (r: Option<Activity>)
        ensures
            r == match self {
                Entity::Activity(a) => Some(a),
                _ => None::<Activity>,
            },
    {
        match self {
            Entity::Activity(a) => Some(a),
            _ => None,
        }
    }

    /// The actor, if the entity is one.
    pub fn into_actor(self) -> (r: Option<Actor>)
        ensures
            r == match self {
                Entity::Actor(a) => Some(a),
                _ => None::<Actor>,
            },
    {
        match self {
            Entity::Actor(a) => Some(a),
            _ => None,
        }
    }

    /// The object, if the entity is one.
    pub fn into_object(self) -> (r: Option<Object>)
        ensures
            r == match self {
                Entity::Object(o) => Some(o),
                _ => None::<Object>,
            },
    {
        match self {
            Entity::Object(o) => Some(o),
            _ => None,
        }
    }

    /// Whether the entity was authored by the actor with the given identifier.
    pub fn is_owned_by(&self, actor_id: &str) -> (r: bool)
        ensures
            r == (entity_owner(*self) == actor_id@),
    {
        let owner = match self {
            Entity::Activity(a) => &a.actor,
            Entity::Actor(a) => &a.id,
            Entity::Object(o) => &o.attributed_to,
        };
        *owner == String::from_str(actor_id)
    }
}

} // verus!
