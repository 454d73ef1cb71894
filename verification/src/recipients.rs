//! Addressing of outgoing activities: the `to` and `cc` lists are merged,
//! every address is kept once (its first occurrence wins) and the public
//! collection, which has no inbox, is dropped.
use vstd::prelude::*;
use vstd::string::*;
use itertools::Itertools;
use crate::text::{contains_text, text_eq};
use crate::consts::{PUBLIC_IDENTIFIER, public_identifier};

verus! {

/// Lexicographic order of strings by their characters' code points, which is
/// the byte order of their UTF-8 encodings (the order of `str`'s `<=`).
pub open spec fn text_le(a: Seq<char>, b: Seq<char>) -> bool
    decreases a.len(),
{
    if a.len() == 0 {
        true
    } else if b.len() == 0 {
        false
    } else if a[0] != b[0] {
        (a[0] as u32) < (b[0] as u32)
    } else {
        text_le(a.drop_first(), b.drop_first())
    }
}

/// Merge of two address lists: at each step the front of `a` is taken when
/// it is `<=` the front of `b`, otherwise the front of `b`.
pub open spec fn merge_ascending(a: Seq<Seq<char>>, b: Seq<Seq<char>>) -> Seq<Seq<char>>
    decreases a.len() + b.len(),
{
    if a.len() == 0 {
        b
    } else if b.len() == 0 {
        a
    } else if text_le(a[0], b[0]) {
        seq![a[0]] + merge_ascending(a.drop_first(), b)
    } else {
        seq![b[0]] + merge_ascending(a, b.drop_first())
    }
}

/// The elements of `s` in order, each kept at its first occurrence only.
pub open spec fn unique_in_order(s: Seq<Seq<char>>) -> Seq<Seq<char>>
    decreases s.len(),
{
    if s.len() == 0 {
        s
    } else {
        let rest = unique_in_order(s.drop_last());
        if rest.contains(s.last()) {
            rest
        } else {
            rest.push(s.last())
        }
    }
}

/// Predicate that holds of every address but the public collection.
pub open spec fn not_public() -> spec_fn(Seq<char>) -> bool {
    |u: Seq<char>| u != public_identifier()
}

/// The inboxes an activity addressed to `to` and `cc` is delivered to.
pub open spec fn delivery_recipients(to: Seq<Seq<char>>, cc: Seq<Seq<char>>) -> Seq<Seq<char>> {
    unique_in_order(merge_ascending(to, cc)).filter(not_public())
}

/// `itertools::Itertools::merge` on the two address lists, collected.
/// The contract states the merge as `merge_ascending`: itertools takes the
/// left front whenever `left <= right`, and `String`'s `<=` is `text_le`.
#[verifier::external_body]
fn merge_addresses(to: Vec<String>, cc: Vec<String>) -> (res: Vec<String>)
    ensures
        res.deep_view() == merge_ascending(to.deep_view(), cc.deep_view()),
{
    to.into_iter().merge(cc).collect()
}

/// Merge the `to` and `cc` lists, remove duplicates and the public identifier.
pub fn recipient_list(to: Vec<String>, cc: Vec<String>) -> (res: Vec<String>)
    ensures
        res.deep_view() == delivery_recipients(to.deep_view(), cc.deep_view()),
{
    let merged = merge_addresses(to, cc);
    let ghost m = merged.deep_view();
    let public = String::from_str(PUBLIC_IDENTIFIER);
    let mut out: Vec<String> = Vec::new();
    let mut i: usize = 0;
    proof {
        assert(m.take(0) =~= Seq::<Seq<char>>::empty());
        reveal(Seq::filter);
        assert(out.deep_view() =~= unique_in_order(m.take(0)).filter(not_public()));
    }
    while i < merged.len()
        invariant
            0 <= i <= merged.len(),
            m == merged.deep_view(),
            public@ == public_identifier(),
            out.deep_view() == unique_in_order(m.take(i as int)).filter(not_public()),
        decreases merged.len() - i,
    {
        let x = &merged[i];
        let ghost prefix = m.take(i as int);
        let ghost u = unique_in_order(prefix);
        proof {
            assert(m.take(i + 1).drop_last() =~= prefix);
            assert(m.take(i + 1).last() == x@);
            lemma_filter_contains_iff(u, not_public(), x@);
        }
        if *x == public {
            proof {
                lemma_filter_push_skip(u, x@);
            }
        } else if contains_text(&out, x) {
        } else {
            let ghost before = out.deep_view();
            let item = x.clone();
            out.push(item);
            proof {
                assert(out.deep_view() =~= before.push(x@));
                u.lemma_filter_push(x@, not_public());
            }
        }
        i += 1;
    }
    proof {
        assert(m.take(merged.len() as int) =~= m);
    }
    out
}

/// How one recipient URL is resolved to inboxes.
#[derive(Debug)]
pub enum RecipientTarget {
    /// The URL is the author's followers collection: the inboxes of all
    /// followers.
    Followers,
    /// The inbox of the actor with this URL.
    Actor(String),
}

/// Resolve a recipient URL: the author's followers collection stands for
/// every follower, any other URL for one actor.
pub fn recipient_target(author_followers: &str, url: String) -> (r: RecipientTarget)
    ensures
        url@ == author_followers@ ==> r is Followers,
        url@ != author_followers@ ==> r == RecipientTarget::Actor(url),
{
    if text_eq(url.as_str(), author_followers) {
        RecipientTarget::Followers
    } else {
        RecipientTarget::Actor(url)
    }
}

/// The inboxes of all resolved recipients, in order; a recipient that could
/// not be resolved (`None`) is skipped.
pub open spec fn flatten_resolved(resolved: Seq<Option<Seq<Seq<char>>>>) -> Seq<Seq<char>>
    decreases resolved.len(),
{
    if resolved.len() == 0 {
        Seq::empty()
    } else {
        let rest = flatten_resolved(resolved.drop_last());
        match resolved.last() {
            Some(inboxes) => rest + inboxes,
            None => rest,
        }
    }
}

/// The number of inboxes the resolved recipients have in all.
pub open spec fn inbox_count(resolved: Seq<Option<Seq<Seq<char>>>>) -> nat
    decreases resolved.len(),
{
    if resolved.len() == 0 {
        0
    } else {
        inbox_count(resolved.drop_last()) + match resolved.last() {
            Some(inboxes) => inboxes.len(),
            None => 0,
        }
    }
}

/// Delivery goes to every inbox of every resolved recipient: the delivery
/// list is as long as all the resolved inbox lists together, holds each of
/// their inboxes, and holds nothing else.
pub proof fn law_every_resolved_inbox_is_delivered(resolved: Seq<Option<Seq<Seq<char>>>>)
    ensures
        flatten_resolved(resolved).len() == inbox_count(resolved),
        forall|i: int, j: int|
            0 <= i < resolved.len() && resolved[i] is Some && 0 <= j < resolved[i]->0.len()
                ==> flatten_resolved(resolved).contains(#[trigger] resolved[i]->0[j]),
        forall|x: Seq<char>| #[trigger] flatten_resolved(resolved).contains(x) ==> exists|i: int, j: int|
            0 <= i < resolved.len() && resolved[i] is Some && 0 <= j < resolved[i]->0.len()
                && resolved[i]->0[j] == x,
    decreases resolved.len(),
{
    if resolved.len() > 0 {
        let init = resolved.drop_last();
        law_every_resolved_inbox_is_delivered(init);
        let rest = flatten_resolved(init);
        let all = flatten_resolved(resolved);
        let n = resolved.len() - 1;
        assert forall|i: int, j: int|
            0 <= i < resolved.len() && resolved[i] is Some && 0 <= j < resolved[i]->0.len()
                implies all.contains(#[trigger] resolved[i]->0[j]) by {
            if i < n {
                assert(init[i] == resolved[i]);
                let x = resolved[i]->0[j];
                assert(rest.contains(x));
                let k = choose|k: int| 0 <= k < rest.len() && rest[k] == x;
                assert(all[k] == x);
            } else {
                let l = resolved[i]->0;
                assert(all == rest + l);
                assert(all[rest.len() + j] == l[j]);
            }
        }
        assert forall|x: Seq<char>| #[trigger] all.contains(x) implies exists|i: int, j: int|
            0 <= i < resolved.len() && resolved[i] is Some && 0 <= j < resolved[i]->0.len()
                && resolved[i]->0[j] == x by {
            let k = choose|k: int| 0 <= k < all.len() && all[k] == x;
            if k < rest.len() {
                match resolved.last() {
                    Some(l) => assert(all[k] == rest[k]),
                    None => {},
                }
                assert(rest.contains(x));
                let (i, j) = choose|i: int, j: int|
                    0 <= i < init.len() && init[i] is Some && 0 <= j < init[i]->0.len() && init[i]->0[j] == x;
                assert(resolved[i] == init[i]);
            } else {
                let l = resolved.last()->0;
                assert(all[k] == l[k - rest.len()]);
                assert(resolved[n] == resolved.last());
            }
        }
    }
}

/// The view of resolved recipients.
pub open spec fn resolved_view(resolved: Seq<Option<Vec<String>>>) -> Seq<Option<Seq<Seq<char>>>> {
    resolved.map_values(|o: Option<Vec<String>>| match o {
        Some(v) => Some(v.deep_view()),
        None => None,
    })
}

/// Flatten the inbox lists of the resolved recipients, skipping the
/// recipients that could not be resolved.
pub fn flatten_inboxes(resolved: Vec<Option<Vec<String>>>) -> (r: Vec<String>)
    ensures
        r.deep_view() == flatten_resolved(resolved_view(resolved@)),
        r@.len() == inbox_count(resolved_view(resolved@)),
        forall|i: int, j: int|
            0 <= i < resolved@.len() && resolved@[i] is Some && 0 <= j < resolved@[i]->0@.len()
                ==> r.deep_view().contains(#[trigger] resolved@[i]->0@[j]@),
{
    let ghost orig = resolved@;
    let mut rows = resolved;
    let mut out: Vec<String> = Vec::new();
    let mut k: usize = 0;
    let total = rows.len();
    while rows.len() > 0
        invariant
            k <= orig.len(),
            orig.len() == total,
            rows@ == orig.skip(k as int),
            out.deep_view() == flatten_resolved(resolved_view(orig.take(k as int))),
        decreases rows.len(),
    {
        let row = rows.remove(0);
        proof {
            assert(resolved_view(orig.take(k + 1)).drop_last() =~= resolved_view(orig.take(k as int)));
            assert(orig.take(k + 1).last() == row);
            assert(resolved_view(orig.take(k + 1)).last() == resolved_view(orig.take(k + 1))[k as int]);
        }
        match row {
            Some(inboxes) => {
                let ghost before = out.deep_view();
                let mut j: usize = 0;
                while j < inboxes.len()
                    invariant
                        0 <= j <= inboxes.len(),
                        out.deep_view() == before + inboxes.deep_view().take(j as int),
                    decreases inboxes.len() - j,
                {
                    let ghost mid = out.deep_view();
                    out.push(inboxes[j].clone());
                    proof {
                        assert(out.deep_view() =~= mid.push(inboxes.deep_view()[j as int]));
                        assert(inboxes.deep_view().take(j + 1) =~= inboxes.deep_view().take(j as int).push(
                            inboxes.deep_view()[j as int],
                        ));
                    }
                    j += 1;
                }
                proof {
                    assert(inboxes.deep_view().take(inboxes.len() as int) =~= inboxes.deep_view());
                }
            },
            None => {},
        }
        proof {
            assert(rows@ =~= orig.skip(k + 1));
        }
        k += 1;
    }
    proof {
        assert(orig.take(k as int) =~= orig);
        let rv = resolved_view(orig);
        law_every_resolved_inbox_is_delivered(rv);
        assert forall|i: int, j: int|
            0 <= i < orig.len() && orig[i] is Some && 0 <= j < orig[i]->0@.len()
                implies out.deep_view().contains(#[trigger] orig[i]->0@[j]@) by {
            assert(rv[i] == Some(orig[i]->0.deep_view()));
            assert(rv[i]->0[j] == orig[i]->0@[j]@);
        }
    }
    out
}

proof fn lemma_filter_push_skip(u: Seq<Seq<char>>, x: Seq<char>)
    requires
        x == public_identifier(),
    ensures
        u.push(x).filter(not_public()) == u.filter(not_public()),
{
    u.lemma_filter_push(x, not_public());
}

/// Membership in a filtered sequence.
pub proof fn lemma_filter_contains_iff(s: Seq<Seq<char>>, p: spec_fn(Seq<char>) -> bool, x: Seq<char>)
    ensures
        s.filter(p).contains(x) <==> (s.contains(x) && p(x)),
    decreases s.len(),
{
    reveal(Seq::filter);
    if s.len() > 0 {
        let rest = s.drop_last();
        lemma_filter_contains_iff(rest, p, x);
        assert(s =~= rest.push(s.last()));
        if s.contains(x) && x != s.last() {
            let k = choose|k: int| 0 <= k < s.len() && s[k] == x;
            assert(rest[k] == x);
        }
        if p(s.last()) {
            assert(s.filter(p) == rest.filter(p).push(s.last()));
        }
    }
}

/// Filtering keeps a sequence free of duplicates.
pub proof fn lemma_filter_no_duplicates(s: Seq<Seq<char>>, p: spec_fn(Seq<char>) -> bool)
    requires
        s.no_duplicates(),
    ensures
        s.filter(p).no_duplicates(),
    decreases s.len(),
{
    reveal(Seq::filter);
    if s.len() > 0 {
        let rest = s.drop_last();
        assert(rest.no_duplicates());
        lemma_filter_no_duplicates(rest, p);
        if p(s.last()) {
            lemma_filter_contains_iff(rest, p, s.last());
            assert(!rest.contains(s.last())) by {
                if rest.contains(s.last()) {
                    let k = choose|k: int| 0 <= k < rest.len() && rest[k] == s.last();
                    assert(s[k] == s[s.len() - 1]);
                }
            }
            let f = rest.filter(p);
            assert forall|i: int, j: int| 0 <= i < j < f.push(s.last()).len() implies
                f.push(s.last())[i] != f.push(s.last())[j] by {
                if j == f.len() {
                    assert(f.contains(f[i]));
                }
            }
        }
    }
}

/// An address occurs in a merge exactly when it occurs in one of the inputs.
pub proof fn lemma_merge_contains(a: Seq<Seq<char>>, b: Seq<Seq<char>>, x: Seq<char>)
    ensures
        merge_ascending(a, b).contains(x) <==> (a.contains(x) || b.contains(x)),
    decreases a.len() + b.len(),
{
    if a.len() == 0 {
    } else if b.len() == 0 {
    } else if text_le(a[0], b[0]) {
        let t = a.drop_first();
        lemma_merge_contains(t, b, x);
        let r = merge_ascending(t, b);
        assert(merge_ascending(a, b) == seq![a[0]] + r);
        lemma_cons_contains(a[0], r, x);
        assert(a =~= seq![a[0]] + t);
        lemma_cons_contains(a[0], t, x);
    } else {
        let t = b.drop_first();
        lemma_merge_contains(a, t, x);
        let r = merge_ascending(a, t);
        assert(merge_ascending(a, b) == seq![b[0]] + r);
        lemma_cons_contains(b[0], r, x);
        assert(b =~= seq![b[0]] + t);
        lemma_cons_contains(b[0], t, x);
    }
}

proof fn lemma_cons_contains(h: Seq<char>, t: Seq<Seq<char>>, x: Seq<char>)
    ensures
        (seq![h] + t).contains(x) <==> (x == h || t.contains(x)),
{
    let s = seq![h] + t;
    if t.contains(x) {
        let k = choose|k: int| 0 <= k < t.len() && t[k] == x;
        assert(s[k + 1] == x);
    }
    if x == h {
        assert(s[0] == x);
    }
    if s.contains(x) {
        let k = choose|k: int| 0 <= k < s.len() && s[k] == x;
        if k > 0 {
            assert(t[k - 1] == x);
        }
    }
}

/// Removing repeats keeps exactly the same addresses.
pub proof fn lemma_unique_contains(s: Seq<Seq<char>>, x: Seq<char>)
    ensures
        unique_in_order(s).contains(x) <==> s.contains(x),
    decreases s.len(),
{
    if s.len() > 0 {
        let rest = s.drop_last();
        lemma_unique_contains(rest, x);
        assert(s =~= rest.push(s.last()));
        if s.contains(x) && x != s.last() {
            let k = choose|k: int| 0 <= k < s.len() && s[k] == x;
            assert(rest[k] == x);
        }
        let u = unique_in_order(rest);
        if !u.contains(s.last()) {
            if u.push(s.last()).contains(x) && x != s.last() {
                let k = choose|k: int| 0 <= k < u.push(s.last()).len() && u.push(s.last())[k] == x;
                assert(u[k] == x);
            }
            if x == s.last() {
                assert(u.push(s.last())[u.len() as int] == x);
            }
            if u.contains(x) {
                let k = choose|k: int| 0 <= k < u.len() && u[k] == x;
                assert(u.push(s.last())[k] == x);
            }
        }
    }
}

/// Removing repeats leaves no duplicates.
pub proof fn lemma_unique_no_duplicates(s: Seq<Seq<char>>)
    ensures
        unique_in_order(s).no_duplicates(),
    decreases s.len(),
{
    if s.len() > 0 {
        let rest = s.drop_last();
        lemma_unique_no_duplicates(rest);
        let u = unique_in_order(rest);
        if !u.contains(s.last()) {
            let w = u.push(s.last());
            assert forall|i: int, j: int| 0 <= i < j < w.len() implies w[i] != w[j] by {
                if j == u.len() {
                    assert(u.contains(u[i]));
                }
            }
        }
    }
}

/// Delivery never goes to the public collection.
pub proof fn law_recipients_exclude_public(to: Seq<Seq<char>>, cc: Seq<Seq<char>>)
    ensures
        !delivery_recipients(to, cc).contains(public_identifier()),
{
    lemma_filter_contains_iff(unique_in_order(merge_ascending(to, cc)), not_public(), public_identifier());
}

/// Every inbox is delivered to at most once.
pub proof fn law_recipients_distinct(to: Seq<Seq<char>>, cc: Seq<Seq<char>>)
    ensures
        delivery_recipients(to, cc).no_duplicates(),
{
    lemma_unique_no_duplicates(merge_ascending(to, cc));
    lemma_filter_no_duplicates(unique_in_order(merge_ascending(to, cc)), not_public());
}

/// An address is a recipient exactly when it is in `to` or `cc` and is not
/// the public collection.
pub proof fn law_recipients_complete(to: Seq<Seq<char>>, cc: Seq<Seq<char>>, x: Seq<char>)
    ensures
        delivery_recipients(to, cc).contains(x) <==> ((to.contains(x) || cc.contains(x))
            && x != public_identifier()),
{
    let m = merge_ascending(to, cc);
    lemma_merge_contains(to, cc, x);
    lemma_unique_contains(m, x);
    lemma_filter_contains_iff(unique_in_order(m), not_public(), x);
}

} // verus!
