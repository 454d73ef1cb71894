//! Activities a local user sends: follows and their undoing.
use vstd::prelude::*;
use vstd::string::*;
use crate::config::Configuration;
use crate::error::Error;
use crate::instantiate;
use crate::instantiate::object_url;
use crate::model::{Activity, ObjectField};
use crate::clock::rfc3339_utc_seconds;

verus! {

/// The Follow activity a local actor sends to follow `followed_id`,
/// addressed to the followed actor only. A follow of an actor that is
/// already followed (a follow activity of the same actor for it is stored)
/// counts as done: no activity is made.
pub fn follow_activity_for(config: &Configuration, actor_id: &str, followed_id: &str, already_following: bool) -> (r:
    Option<(u128, Activity)>)
    ensures
        r is None <==> already_following,
        r matches Some((id, f)) ==> f.id@ == object_url(config.instance.domain@, id) && f.kind@ == "Follow"@
            && f.actor@ == actor_id@ && f.object.url_of() == Some(followed_id@)
            && f.to.deep_view() == seq![followed_id@] && f.cc@.len() == 0
            && rfc3339_utc_seconds(f.published@),
{
    if already_following {
        return None;
    }
    let mut to: Vec<String> = Vec::new();
    to.push(String::from_str(followed_id));
    let (id, activity) = instantiate::activity(
        config,
        "Follow",
        actor_id,
        ObjectField::Url(String::from_str(followed_id)),
        to,
        Vec::new(),
    );
    proof {
        assert(activity.to.deep_view() =~= seq![followed_id@]);
    }
    Some((id, activity))
}

/// The Undo activity for a stored activity of a local actor. Only the owner
/// may undo an activity; the undo goes to everyone who received the original.
pub fn undo_activity_for(
    config: &Configuration,
    db_actor_id: u128,
    actor_id: &str,
    activity_owner_id: u128,
    activity: Activity,
) -> (r: Result<(u128, Activity), Error>)
    ensures
        activity_owner_id != db_actor_id ==> r == Err::<(u128, Activity), Error>(Error::Unauthorized),
        activity_owner_id == db_actor_id ==> match r {
            Ok((id, undo)) => undo.id@ == object_url(config.instance.domain@, id) && undo.kind@ == "Undo"@
                && undo.actor@ == actor_id@ && undo.object == ObjectField::Url(activity.id)
                && undo.to == activity.to && undo.cc == activity.cc
                && rfc3339_utc_seconds(undo.published@),
            Err(_) => false,
        },
{
    if activity_owner_id != db_actor_id {
        return Err(Error::Unauthorized);
    }
    let Activity { id, kind, actor, object, published, to, cc } = activity;
    let (undo_id, undo) = instantiate::activity(config, "Undo", actor_id, ObjectField::Url(id), to, cc);
    Ok((undo_id, undo))
}

} // verus!
