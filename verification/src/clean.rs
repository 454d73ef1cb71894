//! Removal of potentially malicious HTML from received entities.
use vstd::prelude::*;
use crate::model::{Actor, Object};

verus! {

/// What `ammonia::clean` makes of an HTML fragment.
pub uninterp spec fn sanitized_html(src: Seq<char>) -> Seq<char>;

/// `ammonia::clean`: sanitise HTML with ammonia's conservative defaults
/// (allowed tags and attributes, stripped scripts, styles and comments).
/// The result is named; ammonia's default builder is fixed, so it depends on
/// the input alone.
#[verifier::external_body]
pub(crate) fn sanitize_html(src: &str) -> (r: String)
    ensures
        r@ == sanitized_html(src@),
{
    ammonia::clean(src)
}

/// Extension trait for cleaning objects from potentially malicious HTML
pub trait Clean {
    /// Clean any fields that could potentially contain malicious HTML
    fn clean(&mut self);
}

impl Clean for Actor {
    /// Sanitise the display name and the summary; nothing else changes.
    fn clean(&mut self)
        ensures
            final(self).name@ == sanitized_html(old(self).name@),
            final(self).summary@ == sanitized_html(old(self).summary@),
            final(self).id == old(self).id,
            final(self).kind == old(self).kind,
            final(self).username == old(self).username,
            final(self).inbox == old(self).inbox,
            final(self).outbox == old(self).outbox,
            final(self).followers == old(self).followers,
            final(self).following == old(self).following,
            final(self).public_key == old(self).public_key,
            final(self).icon == old(self).icon,
            final(self).image == old(self).image,
    {
        self.name = sanitize_html(self.name.as_str());
        self.summary = sanitize_html(self.summary.as_str());
    }
}

impl Clean for Object {
    /// Sanitise the summary and the content; nothing else changes.
    fn clean(&mut self)
        ensures
            final(self).summary@ == sanitized_html(old(self).summary@),
            final(self).content@ == sanitized_html(old(self).content@),
            final(self).id == old(self).id,
            final(self).kind == old(self).kind,
            final(self).sensitive == old(self).sensitive,
            final(self).published == old(self).published,
            final(self).attributed_to == old(self).attributed_to,
            final(self).tag == old(self).tag,
            final(self).to == old(self).to,
            final(self).cc == old(self).cc,
    {
        self.summary = sanitize_html(self.summary.as_str());
        self.content = sanitize_html(self.content.as_str());
    }
}

} // verus!
