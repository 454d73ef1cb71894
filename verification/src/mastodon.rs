//! Conversion of ActivityPub entities into Mastodon API entities, and the
//! decisions of the Mastodon API endpoints.
use vstd::prelude::*;
use vstd::string::*;
use crate::clean::Clean;
use crate::clean::sanitized_html;
use crate::config::Configuration;
use crate::consts::{PUBLIC_IDENTIFIER, public_identifier};
use crate::error::Error;
use crate::ids::{format_uuid, uuid_simple};
use crate::instantiate;
use crate::instantiate::object_url;
use crate::model::{Activity, Actor, Object, ObjectField, tag_views};
use crate::oauth::OAuthApplication;
use crate::text::copy_texts;
use crate::clock::rfc3339_utc_seconds;
use crate::recipients::{delivery_recipients, law_recipients_complete, law_recipients_distinct};

verus! {

/// What `url::Url::parse` followed by `host_str` makes of a string: `None`
/// where parsing fails, else the host, if the URL has one.
pub uninterp spec fn url_host(url: Seq<char>) -> Option<Option<Seq<char>>>;

/// `url::Url::parse`, then `host_str` of the parsed URL. The outcome is
/// named (it depends on the string alone); a parse error is passed on as
/// its message.
#[verifier::external_body]
fn parse_url_host(url: &str) -> (r: Result<Option<String>, String>)
    ensures
        match url_host(url@) {
            None => r is Err,
            Some(None) => r matches Ok(h) && h is None,
            Some(Some(host)) => r matches Ok(h) && h matches Some(x) && x@ == host,
        },
{
    match url::Url::parse(url) {
        Ok(parsed) => Ok(parsed.host_str().map(|h| h.to_string())),
        Err(e) => Err(e.to_string()),
    }
}

/// A Mastodon account's private details.
#[derive(Debug)]
pub struct Source {
    pub privacy: String,
    pub language: String,
    pub note: String,
}

/// A Mastodon account.
#[derive(Debug)]
pub struct Account {
    pub id: String,
    pub username: String,
    pub acct: String,
    pub display_name: String,
    pub avatar: String,
    pub avatar_static: String,
    pub header: String,
    pub header_static: String,
    pub source: Option<Source>,
}

/// A Mastodon application.
#[derive(Debug)]
pub struct App {
    pub id: String,
    pub name: String,
    pub client_id: String,
    pub client_secret: String,
    pub redirect_uri: String,
    pub website: Option<String>,
    pub vapid_key: Option<String>,
}

/// A Mastodon status.
#[derive(Debug)]
pub struct Status {
    pub id: String,
    pub created_at: String,
    pub sensitive: bool,
    pub spoiler_text: String,
    pub visibility: String,
    pub uri: String,
    pub url: String,
    pub content: String,
    pub application: App,
    pub account: Account,
}

/// The instance's description in the Mastodon API.
#[derive(Debug)]
pub struct Instance {
    pub version: String,
    pub title: String,
    pub uri: String,
    pub short_description: Option<String>,
    pub description: String,
    pub streaming_api: String,
    pub registrations: bool,
    pub invites_enabled: bool,
    pub approval_required: bool,
    pub email: Option<String>,
    pub contact_account: Option<Account>,
}

/// The answer to a follow or unfollow request.
#[derive(Debug)]
pub struct FollowResponse {
    pub id: String,
    pub following: bool,
}

/// Form of the application registration endpoint
#[derive(Debug)]
pub struct RegisterForm {
    pub client_name: String,
    pub redirect_uris: String,
    pub scopes: String,
    pub website: String,
}

/// The scope an application registers with when it names none.
pub fn default_scopes() -> (r: String)
    ensures
        r@ == "read"@,
{
    String::from_str("read")
}

/// The `acct` of an account: the username for a local account,
/// `username@host` for a remote one.
pub fn account_handle(username: &str, remote: bool, url: &str) -> (r: Result<String, Error>)
    ensures
        !remote ==> r is Ok && r->Ok_0@ == username@,
        remote ==> match url_host(url@) {
            None => r is Err && r->Err_0 is UrlParse,
            Some(None) => r == Err::<String, Error>(Error::MalformedUrl),
            Some(Some(host)) => r is Ok && r->Ok_0@ == username@ + "@"@ + host,
        },
{
    if remote {
        match parse_url_host(url) {
            Err(message) => Err(Error::UrlParse(message)),
            Ok(None) => Err(Error::MalformedUrl),
            Ok(Some(host)) => Ok(String::from_str(username).concat("@").concat(host.as_str())),
        }
    } else {
        Ok(String::from_str(username))
    }
}

/// The URL of an optional attachment, or empty.
pub open spec fn attachment_url(a: Option<crate::model::Attachment>) -> Seq<char> {
    match a {
        Some(x) => x.url@,
        None => Seq::empty(),
    }
}

/// Convert a stored actor into a Mastodon account.
pub fn account_from_actor(db_id: u128, remote: bool, actor: Actor) -> (r: Result<Account, Error>)
    ensures
        match r {
            Ok(account) => account.id@ == uuid_simple(db_id) && account.username == actor.username
                && (match account_handle_spec(actor.username@, remote, actor.id@) {
                    Some(h) => account.acct@ == h,
                    None => false,
                }) && account.display_name == actor.name
                && account.avatar@ == attachment_url(actor.icon) && account.avatar_static@ == attachment_url(actor.icon)
                && account.header@ == attachment_url(actor.image) && account.header_static@ == attachment_url(actor.image)
                && account.source is None,
            Err(e) => remote && match url_host(actor.id@) {
                None => e is UrlParse,
                Some(None) => e == Error::MalformedUrl,
                Some(Some(_)) => false,
            },
        },
{
    let acct = match account_handle(actor.username.as_str(), remote, actor.id.as_str()) {
        Ok(a) => a,
        Err(e) => return Err(e),
    };
    let avatar = match &actor.icon {
        Some(a) => a.url.clone(),
        None => String::new(),
    };
    let header = match &actor.image {
        Some(a) => a.url.clone(),
        None => String::new(),
    };
    Ok(Account {
        id: format_uuid(db_id),
        username: actor.username,
        acct,
        display_name: actor.name,
        avatar_static: avatar.clone(),
        avatar,
        header_static: header.clone(),
        header,
        source: None,
    })
}

/// The `acct` an account gets, where it gets one.
pub open spec fn account_handle_spec(username: Seq<char>, remote: bool, url: Seq<char>) -> Option<Seq<char>> {
    if !remote {
        Some(username)
    } else {
        match url_host(url) {
            Some(Some(host)) => Some(username + "@"@ + host),
            _ => None,
        }
    }
}

/// The private details of an account: public, in English, with the actor's
/// summary as note.
pub fn source_from_actor(actor: Actor) -> (r: Source)
    ensures
        r.privacy@ == "public"@,
        r.language@ == "en"@,
        r.note == actor.summary,
{
    Source { privacy: String::from_str("public"), language: String::from_str("en"), note: actor.summary }
}

/// Convert a registered OAuth application into a Mastodon application; an
/// empty website is none.
pub fn app_from_application(app: OAuthApplication) -> (r: App)
    ensures
        r.id@ == uuid_simple(app.id),
        r.name == app.client_name,
        r.client_id@ == uuid_simple(app.client_id),
        r.client_secret == app.client_secret,
        r.redirect_uri == app.redirect_uris,
        r.website == if app.website@.len() == 0 { None } else { Some(app.website) },
        r.vapid_key is None,
{
    let website = if app.website.as_str().is_empty() { None } else { Some(app.website) };
    App {
        id: format_uuid(app.id),
        name: app.client_name,
        client_id: format_uuid(app.client_id),
        client_secret: app.client_secret,
        redirect_uri: app.redirect_uris,
        website,
        vapid_key: None,
    }
}

/// The application statuses without one are attributed to: "Web".
pub fn default_application() -> (r: App)
    ensures
        r.name@ == "Web"@,
        r.id@.len() == 0 && r.client_id@.len() == 0 && r.client_secret@.len() == 0,
        r.redirect_uri@.len() == 0,
        r.website is None && r.vapid_key is None,
{
    App {
        id: String::new(),
        name: String::from_str("Web"),
        client_id: String::new(),
        client_secret: String::new(),
        redirect_uri: String::new(),
        website: None,
        vapid_key: None,
    }
}

/// Convert a stored object into a Mastodon status of the given account.
pub fn status_from_object(db_id: u128, object: Object, account: Account) -> (r: Status)
    ensures
        r.id@ == uuid_simple(db_id),
        r.created_at == object.published,
        r.sensitive == object.sensitive,
        r.spoiler_text == object.summary,
        r.visibility@ == "public"@,
        r.uri@ == object.id@,
        r.url == object.id,
        r.content == object.content,
        r.application.name@ == "Web"@,
        r.account == account,
{
    Status {
        id: format_uuid(db_id),
        created_at: object.published,
        sensitive: object.sensitive,
        spoiler_text: object.summary,
        visibility: String::from_str("public"),
        uri: object.id.clone(),
        url: object.id,
        content: object.content,
        application: default_application(),
        account,
    }
}

/// The instance's description.
pub fn instance_info(config: &Configuration, version: &str) -> (r: Instance)
    ensures
        r.version@ == version@,
        r.title@ == config.instance.domain@,
        r.uri@ == config.instance.domain@,
        r.short_description is None,
        r.description@ == config.instance.description@,
        r.streaming_api@ == "wss://"@ + config.instance.domain@,
        r.registrations == !config.instance.closed_registrations,
        !r.invites_enabled && !r.approval_required,
        r.email is None && r.contact_account is None,
{
    Instance {
        version: String::from_str(version),
        title: config.instance.domain.clone(),
        uri: config.instance.domain.clone(),
        short_description: None,
        description: config.instance.description.clone(),
        streaming_api: String::from_str("wss://").concat(config.instance.domain.as_str()),
        registrations: !config.instance.closed_registrations,
        invites_enabled: false,
        approval_required: false,
        email: None,
        contact_account: None,
    }
}

/// The answer to a follow request for the stored actor with this identifier.
pub fn follow_response(followed_db_id: u128) -> (r: FollowResponse)
    ensures
        r.id@ == uuid_simple(followed_db_id),
        r.following,
{
    FollowResponse { id: format_uuid(followed_db_id), following: true }
}

/// The answer to an unfollow request for the stored actor with this identifier.
pub fn unfollow_response(followed_db_id: u128) -> (r: FollowResponse)
    ensures
        r.id@ == uuid_simple(followed_db_id),
        !r.following,
{
    FollowResponse { id: format_uuid(followed_db_id), following: false }
}

/// The URLs of the actors that stored follow activities reference by URL;
/// `None` stands for a row that could not be decoded.
pub open spec fn followed_urls_spec(d: Seq<Option<Activity>>) -> Seq<Seq<char>>
    decreases d.len(),
{
    if d.len() == 0 {
        Seq::empty()
    } else {
        let rest = followed_urls_spec(d.drop_last());
        match d.last() {
            Some(a) => match a.object {
                ObjectField::Url(u) => rest.push(u@),
                _ => rest,
            },
            None => rest,
        }
    }
}

/// The URLs of the accounts that a list of follow activities refers to.
pub fn followed_urls(decoded: Vec<Option<Activity>>) -> (r: Vec<String>)
    ensures
        r.deep_view() == followed_urls_spec(decoded@),
{
    let ghost orig = decoded@;
    let mut rows = decoded;
    let mut out: Vec<String> = Vec::new();
    let mut k: usize = 0;
    let total = rows.len();
    while rows.len() > 0
        invariant
            k <= orig.len(),
            orig.len() == total,
            rows@ == orig.skip(k as int),
            out.deep_view() == followed_urls_spec(orig.take(k as int)),
        decreases rows.len(),
    {
        let row = rows.remove(0);
        proof {
            assert(orig.take(k + 1).drop_last() =~= orig.take(k as int));
            assert(orig.take(k + 1).last() == row);
        }
        let ghost before = out.deep_view();
        match row {
            Some(a) => match a.object {
                ObjectField::Url(u) => {
                    let ghost uv = u@;
                    out.push(u);
                    proof {
                        assert(out.deep_view() =~= before.push(uv));
                    }
                },
                _ => {},
            },
            None => {},
        }
        proof {
            assert(rows@ =~= orig.skip(k + 1));
        }
        k += 1;
    }
    proof {
        assert(orig.take(k as int) =~= orig);
    }
    out
}

/// Whether a status is longer than the instance allows (counted in characters).
pub fn status_too_long(character_limit: usize, status: &str) -> (r: bool)
    ensures
        r == (character_limit < status@.len()),
{
    character_limit < status.unicode_len()
}

/// The form of a new status.
#[derive(Debug)]
pub struct CreateForm {
    pub status: String,
    pub sensitive: bool,
    pub spoiler_text: String,
}

/// The note of a new status: public and sent to the author's followers,
/// cleaned of malicious HTML.
pub fn status_note(config: &Configuration, author: &Actor, form: &CreateForm) -> (r: (u128, Object))
    ensures
        r.1.id@ == object_url(config.instance.domain@, r.0),
        r.1.kind@ == "Note"@,
        r.1.summary@ == sanitized_html(form.spoiler_text@),
        r.1.content@ == sanitized_html(form.status@),
        r.1.sensitive == form.sensitive,
        r.1.attributed_to@ == author.id@,
        r.1.tag@.len() == 0,
        r.1.to.deep_view() == seq![public_identifier(), author.followers@],
        r.1.cc@.len() == 0,
        rfc3339_utc_seconds(r.1.published@),
{
    let mut to: Vec<String> = Vec::new();
    to.push(String::from_str(PUBLIC_IDENTIFIER));
    to.push(author.followers.clone());
    let (id, mut object) = instantiate::object(
        config,
        author.id.as_str(),
        form.spoiler_text.as_str(),
        form.status.as_str(),
        None,
        form.sensitive,
        to,
        Vec::new(),
    );
    object.clean();
    proof {
        assert(object.to.deep_view() =~= seq![public_identifier(), author.followers@]);
    }
    (id, object)
}

/// A new status (addressed as `status_note` addresses it) is delivered to the
/// author's followers collection and to nothing else: the public collection
/// has no inbox.
pub proof fn law_new_status_reaches_the_followers(followers: Seq<char>)
    requires
        followers != public_identifier(),
    ensures
        delivery_recipients(seq![public_identifier(), followers], Seq::empty()) == seq![followers],
{
    let to = seq![public_identifier(), followers];
    let cc = Seq::<Seq<char>>::empty();
    let d = delivery_recipients(to, cc);
    law_recipients_distinct(to, cc);
    law_recipients_complete(to, cc, followers);
    assert(to[1] == followers);
    assert forall|i: int| 0 <= i < d.len() implies d[i] == followers by {
        law_recipients_complete(to, cc, d[i]);
        assert(d.contains(d[i]));
        if d[i] != followers {
            assert(to.contains(d[i]));
            let k = choose|k: int| 0 <= k < to.len() && to[k] == d[i];
            assert(k == 0 || k == 1);
        }
    }
    if d.len() >= 2 {
        assert(d[0] == followers && d[1] == followers);
    }
    assert(d =~= seq![followers]);
}

/// The Create activity that publishes a new note, addressed as the note is.
pub fn create_activity_for(config: &Configuration, author_id: &str, note: &Object) -> (r: (u128, Activity))
    ensures
        r.1.id@ == object_url(config.instance.domain@, r.0),
        r.1.kind@ == "Create"@,
        r.1.actor@ == author_id@,
        r.1.object matches ObjectField::Object(o) && o.id@ == note.id@ && o.kind@ == note.kind@
            && o.summary@ == note.summary@ && o.content@ == note.content@ && o.sensitive == note.sensitive
            && o.published@ == note.published@ && o.attributed_to@ == note.attributed_to@
            && tag_views(o.tag@) == tag_views(note.tag@)
            && o.to.deep_view() == note.to.deep_view() && o.cc.deep_view() == note.cc.deep_view(),
        r.1.to.deep_view() == note.to.deep_view(),
        r.1.cc.deep_view() == note.cc.deep_view(),
        rfc3339_utc_seconds(r.1.published@),
{
    let copy = note.duplicate();
    let to = copy_texts(&note.to);
    let cc = copy_texts(&note.cc);
    instantiate::activity(config, "Create", author_id, ObjectField::Object(copy), to, cc)
}

} // verus!
