//! The decisions of the inbox handlers: what each received activity must
//! look like, and what is stored, fetched, updated or deleted for it.
use vstd::prelude::*;
use vstd::string::*;
use crate::clean::{Clean, sanitized_html};
use crate::config::Configuration;
use crate::error::Error;
use crate::instantiate;
use crate::instantiate::object_url;
use crate::model::{Activity, Actor, FollowActivity, Object, ObjectField};
use crate::text::text_eq;
use crate::clock::rfc3339_utc_seconds;

verus! {

/// The URL the activity's object field holds; an embedded actor or object is
/// an `UnknownActivity` error. (Accept, Announce, Like, Reject and Undo
/// activities all reference their object by URL.)
pub fn referenced_url(activity: &Activity) -> (r: Result<String, Error>)
    ensures
        match activity.object.url_of() {
            Some(u) => r is Ok && r->Ok_0@ == u,
            None => r == Err::<String, Error>(Error::UnknownActivity),
        },
{
    match &activity.object {
        ObjectField::Url(u) => Ok(u.clone()),
        _ => Err(Error::UnknownActivity),
    }
}

/// Approve a follow activity that an Accept activity refers to: only the
/// followed actor may accept it, and it has to be a Follow activity.
pub fn approve_follow(accept: &Activity, follow: FollowActivity) -> (r: Result<FollowActivity, Error>)
    requires
        follow.activity.object.url_of() is Some,
    ensures
        accept.actor@ != follow.activity.object.url_of()->0 ==> r == Err::<FollowActivity, Error>(
            Error::Unauthorized,
        ),
        accept.actor@ == follow.activity.object.url_of()->0 && follow.activity.kind@ != "Follow"@
            ==> r == Err::<FollowActivity, Error>(Error::UnknownActivity),
        accept.actor@ == follow.activity.object.url_of()->0 && follow.activity.kind@ == "Follow"@
            ==> r == Ok::<FollowActivity, Error>(FollowActivity { activity: follow.activity, approved: true }),
{
    let followed = match &follow.activity.object {
        ObjectField::Url(u) => u.clone(),
        _ => String::new(),
    };
    if accept.actor != followed {
        return Err(Error::Unauthorized);
    }
    if !text_eq(follow.activity.kind.as_str(), "Follow") {
        return Err(Error::UnknownActivity);
    }
    Ok(FollowActivity { activity: follow.activity, approved: true })
}

/// What a Reject activity leads to.
#[derive(Debug)]
pub enum RejectOutcome {
    /// The rejecting actor is not the followed actor: answer 401, change nothing.
    Unauthorized,
    /// Delete the stored follow activity.
    DeleteFollow,
}

/// Judge a Reject activity against the follow activity it refers to.
pub fn judge_reject(reject: &Activity, follow: &Activity) -> (r: Result<RejectOutcome, Error>)
    requires
        follow.object.url_of() is Some,
    ensures
        reject.actor@ != follow.object.url_of()->0 ==> r == Ok::<RejectOutcome, Error>(
            RejectOutcome::Unauthorized,
        ),
        reject.actor@ == follow.object.url_of()->0 && follow.kind@ != "Follow"@ ==> r == Err::<
            RejectOutcome,
            Error,
        >(Error::UnknownActivity),
        reject.actor@ == follow.object.url_of()->0 && follow.kind@ == "Follow"@ ==> r == Ok::<
            RejectOutcome,
            Error,
        >(RejectOutcome::DeleteFollow),
{
    let followed = match &follow.object {
        ObjectField::Url(u) => u.clone(),
        _ => String::new(),
    };
    if reject.actor != followed {
        return Ok(RejectOutcome::Unauthorized);
    }
    if !text_eq(follow.kind.as_str(), "Follow") {
        return Err(Error::UnknownActivity);
    }
    Ok(RejectOutcome::DeleteFollow)
}

/// What a Create activity leads to.
#[derive(Debug)]
pub enum CreatePlan {
    /// Store the embedded object (already cleaned) under the activity's author.
    StoreObject { author: String, object: Object },
    /// Fetch (and so store) the object behind the URL.
    FetchObject(String),
}

/// Plan the handling of a Create activity; an embedded actor is an
/// `UnknownActivity` error.
pub fn plan_create(activity: Activity) -> (r: Result<CreatePlan, Error>)
    ensures
        match activity.object {
            ObjectField::Object(o) => match r {
                Ok(CreatePlan::StoreObject { author, object }) => author == activity.actor
                    && object.summary@ == sanitized_html(o.summary@)
                    && object.content@ == sanitized_html(o.content@)
                    && object.id == o.id && object.kind == o.kind && object.sensitive == o.sensitive
                    && object.published == o.published && object.attributed_to == o.attributed_to
                    && object.tag == o.tag && object.to == o.to && object.cc == o.cc,
                _ => false,
            },
            ObjectField::Url(u) => r == Ok::<CreatePlan, Error>(CreatePlan::FetchObject(u)),
            ObjectField::Actor(_) => r == Err::<CreatePlan, Error>(Error::UnknownActivity),
        },
{
    match activity.object {
        ObjectField::Object(o) => {
            let mut object = o;
            object.clean();
            Ok(CreatePlan::StoreObject { author: activity.actor, object })
        },
        ObjectField::Url(u) => Ok(CreatePlan::FetchObject(u)),
        ObjectField::Actor(_) => Err(Error::UnknownActivity),
    }
}

/// What a Delete activity leads to.
#[derive(Debug)]
pub enum DeletePlan {
    /// Delete the stored object with this URL.
    DeleteUrl(String),
    /// Fetch the object behind the URL, then delete the stored object with
    /// the fetched object's identifier.
    FetchThenDelete(String),
}

/// Plan the handling of a Delete activity; an embedded actor is an
/// `UnknownActivity` error.
pub fn plan_delete(activity: Activity) -> (r: Result<DeletePlan, Error>)
    ensures
        match activity.object {
            ObjectField::Object(o) => r == Ok::<DeletePlan, Error>(DeletePlan::DeleteUrl(o.id)),
            ObjectField::Url(u) => r == Ok::<DeletePlan, Error>(DeletePlan::FetchThenDelete(u)),
            ObjectField::Actor(_) => r == Err::<DeletePlan, Error>(Error::UnknownActivity),
        },
{
    match activity.object {
        ObjectField::Object(o) => Ok(DeletePlan::DeleteUrl(o.id)),
        ObjectField::Url(u) => Ok(DeletePlan::FetchThenDelete(u)),
        ObjectField::Actor(_) => Err(Error::UnknownActivity),
    }
}

/// What a Follow activity leads to.
#[derive(Debug)]
pub struct FollowPlan {
    /// The URL of the followed actor.
    pub followed: String,
    /// The URL of the actor whose row the follow activity is stored under:
    /// the follower, who created it (as for follows made locally).
    pub owner: String,
    /// The follow activity to store.
    pub follow: FollowActivity,
}

/// Plan the handling of a Follow activity: the URL of the followed actor,
/// the owner of the stored row (the follower) and the follow activity to
/// store, with an embedded actor replaced by its URL and the follow
/// approved. An embedded object is an `UnknownActivity` error.
pub fn plan_follow(activity: Activity) -> (r: Result<FollowPlan, Error>)
    ensures
        match activity.object {
            ObjectField::Actor(a) => r is Ok && r->Ok_0.followed@ == a.id@ && r->Ok_0.owner@ == activity.actor@
                && r->Ok_0.follow.approved
                && r->Ok_0.follow.activity.object == ObjectField::Url(a.id)
                && r->Ok_0.follow.activity.id == activity.id && r->Ok_0.follow.activity.kind == activity.kind
                && r->Ok_0.follow.activity.actor == activity.actor
                && r->Ok_0.follow.activity.published == activity.published
                && r->Ok_0.follow.activity.to == activity.to && r->Ok_0.follow.activity.cc == activity.cc,
            ObjectField::Url(u) => r is Ok && r->Ok_0.followed@ == u@ && r->Ok_0.owner@ == activity.actor@
                && r->Ok_0.follow == (FollowActivity { activity, approved: true }),
            ObjectField::Object(_) => r == Err::<FollowPlan, Error>(Error::UnknownActivity),
        },
{
    let owner = activity.actor.clone();
    let Activity { id, kind, actor, object, published, to, cc } = activity;
    match object {
        ObjectField::Actor(a) => {
            let url = a.id.clone();
            let normalized = Activity { id, kind, actor, object: ObjectField::Url(a.id), published, to, cc };
            Ok(FollowPlan { followed: url, owner, follow: FollowActivity { activity: normalized, approved: true } })
        },
        ObjectField::Url(u) => {
            let url = u.clone();
            let same = Activity { id, kind, actor, object: ObjectField::Url(u), published, to, cc };
            Ok(FollowPlan { followed: url, owner, follow: FollowActivity { activity: same, approved: true } })
        },
        ObjectField::Object(_) => Err(Error::UnknownActivity),
    }
}

/// The Accept activity answering a follow: sent by the followed actor,
/// referencing the follow activity, addressed to `recipient`.
pub fn accept_follow(config: &Configuration, followed_url: &str, follow_id: &str, recipient: &str) -> (r: (u128, Activity))
    ensures
        r.1.id@ == object_url(config.instance.domain@, r.0),
        r.1.kind@ == "Accept"@,
        r.1.actor@ == followed_url@,
        r.1.object.url_of() == Some(follow_id@),
        r.1.to.deep_view() == seq![recipient@],
        r.1.cc@.len() == 0,
        rfc3339_utc_seconds(r.1.published@),
{
    let mut to: Vec<String> = Vec::new();
    to.push(String::from_str(recipient));
    let (id, activity) = instantiate::activity(
        config,
        "Accept",
        followed_url,
        ObjectField::Url(String::from_str(follow_id)),
        to,
        Vec::new(),
    );
    proof {
        assert(activity.to.deep_view() =~= seq![recipient@]);
    }
    (id, activity)
}

/// The Accept activity a handled follow is answered with: one is sent only
/// when the follow is approved and the followed actor is local; it comes
/// from the followed actor, references the follow activity and is
/// addressed to the follower.
pub fn follow_accept(config: &Configuration, plan: &FollowPlan, followed_is_local: bool) -> (r: Option<(u128, Activity)>)
    ensures
        r is Some <==> (plan.follow.approved && followed_is_local),
        r matches Some((id, a)) ==> a.id@ == object_url(config.instance.domain@, id) && a.kind@ == "Accept"@
            && a.actor@ == plan.followed@ && a.object.url_of() == Some(plan.follow.activity.id@)
            && a.to.deep_view() == seq![plan.follow.activity.actor@] && a.cc@.len() == 0
            && rfc3339_utc_seconds(a.published@),
{
    if plan.follow.approved && followed_is_local {
        Some(accept_follow(config, plan.followed.as_str(), plan.follow.activity.id.as_str(), plan.follow.activity.actor.as_str()))
    } else {
        None
    }
}

/// Plan the handling of an Update activity: the embedded actor, cleaned. Any
/// other object is an `UnknownActivity` error.
pub fn plan_update(activity: Activity) -> (r: Result<Actor, Error>)
    ensures
        match activity.object {
            ObjectField::Actor(a) => match r {
                Ok(c) => c.name@ == sanitized_html(a.name@) && c.summary@ == sanitized_html(a.summary@)
                    && c.id == a.id && c.kind == a.kind && c.username == a.username && c.inbox == a.inbox
                    && c.outbox == a.outbox && c.followers == a.followers && c.following == a.following
                    && c.public_key == a.public_key && c.icon == a.icon && c.image == a.image,
                Err(_) => false,
            },
            _ => r == Err::<Actor, Error>(Error::UnknownActivity),
        },
{
    match activity.object {
        ObjectField::Actor(a) => {
            let mut actor = a;
            actor.clean();
            Ok(actor)
        },
        _ => Err(Error::UnknownActivity),
    }
}

} // verus!
