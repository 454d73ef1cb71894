//! Validation and dispatch of activities delivered to an inbox.
use vstd::prelude::*;
use vstd::string::*;
use crate::error::Error;
use crate::model::{Activity, Entity, ObjectField, entity_owner};
use crate::text::text_eq;

verus! {

/// The handler an activity type is dispatched to.
#[derive(Debug)]
pub enum HandlerKind {
    Accept,
    Announce,
    Create,
    Delete,
    Follow,
    Like,
    Reject,
    Undo,
    Update,
}

/// The handler of each known activity type; `None` for unknown types.
pub open spec fn handler_spec(kind: Seq<char>) -> Option<HandlerKind> {
    if kind == "Accept"@ {
        Some(HandlerKind::Accept)
    } else if kind == "Announce"@ {
        Some(HandlerKind::Announce)
    } else if kind == "Create"@ {
        Some(HandlerKind::Create)
    } else if kind == "Delete"@ {
        Some(HandlerKind::Delete)
    } else if kind == "Follow"@ {
        Some(HandlerKind::Follow)
    } else if kind == "Like"@ {
        Some(HandlerKind::Like)
    } else if kind == "Reject"@ {
        Some(HandlerKind::Reject)
    } else if kind == "Undo"@ {
        Some(HandlerKind::Undo)
    } else if kind == "Update"@ {
        Some(HandlerKind::Update)
    } else {
        None
    }
}

/// The nine activity types the inbox handles.
pub open spec fn known_activity_type(kind: Seq<char>) -> bool {
    kind == "Accept"@ || kind == "Announce"@ || kind == "Create"@ || kind == "Delete"@ || kind == "Follow"@
        || kind == "Like"@ || kind == "Reject"@ || kind == "Undo"@ || kind == "Update"@
}

/// `h` is the handler named by the activity type `kind`.
pub open spec fn handled_by(kind: Seq<char>, h: HandlerKind) -> bool {
    match h {
        HandlerKind::Accept => kind == "Accept"@,
        HandlerKind::Announce => kind == "Announce"@,
        HandlerKind::Create => kind == "Create"@,
        HandlerKind::Delete => kind == "Delete"@,
        HandlerKind::Follow => kind == "Follow"@,
        HandlerKind::Like => kind == "Like"@,
        HandlerKind::Reject => kind == "Reject"@,
        HandlerKind::Undo => kind == "Undo"@,
        HandlerKind::Update => kind == "Update"@,
    }
}

proof fn lemma_activity_type_literals_distinct()
    ensures
        "Accept"@ != "Announce"@, "Accept"@ != "Create"@, "Accept"@ != "Delete"@, "Accept"@ != "Follow"@,
        "Accept"@ != "Like"@, "Accept"@ != "Reject"@, "Accept"@ != "Undo"@, "Accept"@ != "Update"@,
        "Announce"@ != "Create"@, "Announce"@ != "Delete"@, "Announce"@ != "Follow"@, "Announce"@ != "Like"@,
        "Announce"@ != "Reject"@, "Announce"@ != "Undo"@, "Announce"@ != "Update"@,
        "Create"@ != "Delete"@, "Create"@ != "Follow"@, "Create"@ != "Like"@, "Create"@ != "Reject"@,
        "Create"@ != "Undo"@, "Create"@ != "Update"@,
        "Delete"@ != "Follow"@, "Delete"@ != "Like"@, "Delete"@ != "Reject"@, "Delete"@ != "Undo"@,
        "Delete"@ != "Update"@,
        "Follow"@ != "Like"@, "Follow"@ != "Reject"@, "Follow"@ != "Undo"@, "Follow"@ != "Update"@,
        "Like"@ != "Reject"@, "Like"@ != "Undo"@, "Like"@ != "Update"@,
        "Reject"@ != "Undo"@, "Reject"@ != "Update"@,
        "Undo"@ != "Update"@,
{
    reveal_strlit("Accept");
    reveal_strlit("Announce");
    reveal_strlit("Create");
    reveal_strlit("Delete");
    reveal_strlit("Follow");
    reveal_strlit("Like");
    reveal_strlit("Reject");
    reveal_strlit("Undo");
    reveal_strlit("Update");
    assert("Accept"@[0] == 'A' && "Accept"@[1] == 'c');
    assert("Announce"@[0] == 'A' && "Announce"@[1] == 'n');
    assert("Create"@[0] == 'C');
    assert("Delete"@[0] == 'D');
    assert("Follow"@[0] == 'F');
    assert("Like"@[0] == 'L');
    assert("Reject"@[0] == 'R');
    assert("Undo"@[0] == 'U' && "Undo"@[1] == 'n');
    assert("Update"@[0] == 'U' && "Update"@[1] == 'p');
}

/// Dispatch refuses every activity type but the nine the inbox handles, and
/// hands each of those to the handler of its own name: no other type (such
/// as `Remove`) reaches a handler.
pub proof fn law_only_the_nine_types_have_handlers(kind: Seq<char>)
    ensures
        handler_spec(kind) is Some <==> known_activity_type(kind),
        handler_spec(kind) matches Some(h) ==> handled_by(kind, h),
{
    lemma_activity_type_literals_distinct();
}

/// Choose the handler for an activity type; unknown types are an
/// `UnknownActivity` error.
pub fn handler_for(kind: &str) -> (r: Result<HandlerKind, Error>)
    ensures
        match handler_spec(kind@) {
            Some(h) => r == Ok::<HandlerKind, Error>(h),
            None => r == Err::<HandlerKind, Error>(Error::UnknownActivity),
        },
        r matches Ok(h) ==> handled_by(kind@, h),
        r is Err <==> !known_activity_type(kind@),
{
    proof {
        law_only_the_nine_types_have_handlers(kind@);
    }
    if text_eq(kind, "Accept") {
        Ok(HandlerKind::Accept)
    } else if text_eq(kind, "Announce") {
        Ok(HandlerKind::Announce)
    } else if text_eq(kind, "Create") {
        Ok(HandlerKind::Create)
    } else if text_eq(kind, "Delete") {
        Ok(HandlerKind::Delete)
    } else if text_eq(kind, "Follow") {
        Ok(HandlerKind::Follow)
    } else if text_eq(kind, "Like") {
        Ok(HandlerKind::Like)
    } else if text_eq(kind, "Reject") {
        Ok(HandlerKind::Reject)
    } else if text_eq(kind, "Undo") {
        Ok(HandlerKind::Undo)
    } else if text_eq(kind, "Update") {
        Ok(HandlerKind::Update)
    } else {
        Err(Error::UnknownActivity)
    }
}

/// Activity types whose object may belong to someone else.
pub open spec fn ownership_exempt(kind: Seq<char>) -> bool {
    kind == "Announce"@ || kind == "Follow"@
}

/// The next step of an ownership check.
#[derive(Debug)]
pub enum OwnershipStep {
    /// The check is decided: the activity is accepted or refused.
    Decided(Result<Activity, Error>),
    /// The activity references its object by URL; the entity behind the URL
    /// has to be fetched and handed to `finish_ownership_check`.
    FetchReferenced(Activity, String),
}

/// Begin checking that the activity's object belongs to the activity's actor.
pub fn begin_ownership_check(activity: Activity) -> (r: OwnershipStep)
    ensures
        ownership_exempt(activity.kind@) ==> r == OwnershipStep::Decided(Ok(activity)),
        !ownership_exempt(activity.kind@) ==> match activity.object {
            ObjectField::Actor(a) => r == OwnershipStep::Decided(
                if a.id@ == activity.actor@ { Ok(activity) } else { Err(Error::Unauthorized) },
            ),
            ObjectField::Object(o) => r == OwnershipStep::Decided(
                if o.attributed_to@ == activity.actor@ { Ok(activity) } else { Err(Error::Unauthorized) },
            ),
            ObjectField::Url(u) => match r {
                OwnershipStep::FetchReferenced(a, url) => a == activity && url@ == u@,
                _ => false,
            },
        },
{
    if text_eq(activity.kind.as_str(), "Announce") || text_eq(activity.kind.as_str(), "Follow") {
        return OwnershipStep::Decided(Ok(activity));
    }
    let matched = match &activity.object {
        ObjectField::Actor(a) => Some(a.id == activity.actor),
        ObjectField::Object(o) => Some(o.attributed_to == activity.actor),
        ObjectField::Url(u) => None,
    };
    match matched {
        Some(true) => OwnershipStep::Decided(Ok(activity)),
        Some(false) => OwnershipStep::Decided(Err(Error::Unauthorized)),
        None => {
            let url = match &activity.object {
                ObjectField::Url(u) => u.clone(),
                _ => String::new(),
            };
            OwnershipStep::FetchReferenced(activity, url)
        },
    }
}

/// Finish the ownership check with the entity the activity references.
pub fn finish_ownership_check(activity: Activity, referenced: &Entity) -> (r: Result<Activity, Error>)
    ensures
        r == if entity_owner(*referenced) == activity.actor@ {
            Ok::<Activity, Error>(activity)
        } else {
            Err::<Activity, Error>(Error::Unauthorized)
        },
{
    if referenced.is_owned_by(activity.actor.as_str()) {
        Ok(activity)
    } else {
        Err(Error::Unauthorized)
    }
}

} // verus!
