//! Interpretation of entities fetched from remote servers.
use vstd::prelude::*;
use vstd::string::*;
use crate::clean::{Clean, sanitized_html};
use crate::error::Error;
use crate::model::{Activity, Object, ObjectField};
use crate::text::text_eq;

verus! {

/// The kind a fetched entity is decoded as.
#[derive(Debug)]
pub enum EntityKind {
    Actor,
    Activity,
    Object,
}

/// Decide how a fetched JSON document is decoded, by its `type` (if it has
/// a string one) and whether it has an `object` field: a `Person` is an
/// actor, anything else with an `object` field is an activity, the rest an
/// object. A document without a type cannot be interpreted: a `Fetch` error.
pub fn classify_entity(kind: Option<&str>, has_object: bool) -> (r: Result<EntityKind, Error>)
    ensures
        kind is None ==> r == Err::<EntityKind, Error>(Error::Fetch),
        kind matches Some(k) && k@ == "Person"@ ==> r == Ok::<EntityKind, Error>(EntityKind::Actor),
        kind matches Some(k) && k@ != "Person"@ && has_object ==> r == Ok::<EntityKind, Error>(
            EntityKind::Activity,
        ),
        kind matches Some(k) && k@ != "Person"@ && !has_object ==> r == Ok::<EntityKind, Error>(
            EntityKind::Object,
        ),
{
    match kind {
        None => Err(Error::Fetch),
        Some(k) => {
            if text_eq(k, "Person") {
                Ok(EntityKind::Actor)
            } else if has_object {
                Ok(EntityKind::Activity)
            } else {
                Ok(EntityKind::Object)
            }
        },
    }
}

/// Normalise an activity fetched from a remote server: an embedded object
/// is cleaned and handed back to be stored, and the activity references it
/// by URL instead; an embedded actor is an `UnknownActivity` error.
pub fn normalize_fetched_activity(activity: Activity) -> (r: Result<(Activity, Option<Object>), Error>)
    ensures
        match activity.object {
            ObjectField::Url(_) => r == Ok::<(Activity, Option<Object>), Error>((activity, None)),
            ObjectField::Actor(_) => r == Err::<(Activity, Option<Object>), Error>(Error::UnknownActivity),
            ObjectField::Object(o) => match r {
                Ok((a, Some(c))) => a.object.url_of() == Some(o.id@) && a.id == activity.id
                    && a.kind == activity.kind && a.actor == activity.actor
                    && a.published == activity.published && a.to == activity.to && a.cc == activity.cc
                    && c.summary@ == sanitized_html(o.summary@) && c.content@ == sanitized_html(o.content@)
                    && c.id == o.id && c.kind == o.kind && c.sensitive == o.sensitive
                    && c.published == o.published && c.attributed_to == o.attributed_to && c.tag == o.tag
                    && c.to == o.to && c.cc == o.cc,
                _ => false,
            },
        },
{
    let Activity { id, kind, actor, object, published, to, cc } = activity;
    match object {
        ObjectField::Object(o) => {
            let mut cleaned = o;
            cleaned.clean();
            let url = cleaned.id.clone();
            Ok((Activity { id, kind, actor, object: ObjectField::Url(url), published, to, cc }, Some(cleaned)))
        },
        ObjectField::Actor(_) => Err(Error::UnknownActivity),
        ObjectField::Url(u) => Ok((Activity { id, kind, actor, object: ObjectField::Url(u), published, to, cc }, None)),
    }
}

} // verus!
