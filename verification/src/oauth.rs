//! The OAuth 2.0 flows: authorisation codes and access tokens.
use vstd::prelude::*;
use vstd::string::*;
use crate::error::Error;
use crate::text::text_eq;
use crate::clock::now_unix_timestamp;

verus! {

/// How long an authorisation code is valid, in seconds (5 minutes).
pub const AUTHORIZATION_CODE_VALIDITY: i64 = 300;

/// How long an access token is valid, in seconds (1 hour).
pub const ACCESS_TOKEN_VALID_DURATION: i64 = 3600;

/// The redirect URI asking for the code or token to be shown to the user.
pub const OUT_OF_BAND_URI: &'static str = "urn:ietf:wg:oauth:2.0:oob";

/// A registered OAuth application.
#[derive(Debug)]
pub struct OAuthApplication {
    pub id: u128,
    pub client_name: String,
    pub client_id: u128,
    pub client_secret: String,
    pub redirect_uris: String,
    pub scopes: String,
    pub website: String,
}

/// Form of the authorisation page
#[derive(Debug)]
pub struct AuthoriseForm {
    pub username: String,
    pub password: String,
}

/// Query parameters of an authorisation request
#[derive(Debug)]
pub struct QueryParams {
    pub response_type: String,
    pub client_id: u128,
    pub redirect_uri: String,
    pub state: String,
}

/// Form for password grant authorisation flows
#[derive(Debug)]
pub struct FormPasswordGrant {
    pub username: String,
    pub password: String,
}

/// Form for code grant authorisation flows
#[derive(Debug)]
pub struct FormCodeGrant {
    pub client_id: u128,
    pub client_secret: String,
    pub redirect_uri: String,
    pub code: String,
}

/// The grant-specific part of a token request
#[derive(Debug)]
pub enum FormData {
    CodeGrant(FormCodeGrant),
    PasswordGrant(FormPasswordGrant),
}

/// A token request
#[derive(Debug)]
pub struct TokenForm {
    pub grant_type: String,
    pub data: FormData,
}

impl FormData {
    /// If the form is a code grant form, return it otherwise return an error
    pub fn code_grant(self) -> (r: Result<FormCodeGrant, Error>)
        ensures
            match self {
                FormData::CodeGrant(f) => r == Ok::<FormCodeGrant, Error>(f),
                _ => r == Err::<FormCodeGrant, Error>(Error::InvalidRequest),
            },
    {
        match self {
            FormData::CodeGrant(form) => Ok(form),
            _ => Err(Error::InvalidRequest),
        }
    }

    /// If the form is a password grant form, return it otherwise return an error
    pub fn password_grant(self) -> (r: Result<FormPasswordGrant, Error>)
        ensures
            match self {
                FormData::PasswordGrant(f) => r == Ok::<FormPasswordGrant, Error>(f),
                _ => r == Err::<FormPasswordGrant, Error>(Error::InvalidRequest),
            },
    {
        match self {
            FormData::PasswordGrant(form) => Ok(form),
            _ => Err(Error::InvalidRequest),
        }
    }
}

/// The grant a token request asks for.
#[derive(Debug)]
pub enum Grant {
    Code(FormCodeGrant),
    Password(FormPasswordGrant),
}

/// Pick the grant of a token request: `authorization_code` needs a code
/// grant form, `password` a password grant form; anything else is an
/// `InvalidRequest` error.
pub fn select_grant(form: TokenForm) -> (r: Result<Grant, Error>)
    ensures
        form.grant_type@ == "authorization_code"@ ==> r == match form.data {
            FormData::CodeGrant(f) => Ok::<Grant, Error>(Grant::Code(f)),
            _ => Err::<Grant, Error>(Error::InvalidRequest),
        },
        form.grant_type@ == "password"@ ==> r == match form.data {
            FormData::PasswordGrant(f) => Ok::<Grant, Error>(Grant::Password(f)),
            _ => Err::<Grant, Error>(Error::InvalidRequest),
        },
        form.grant_type@ != "authorization_code"@ && form.grant_type@ != "password"@ ==> r == Err::<
            Grant,
            Error,
        >(Error::InvalidRequest),
{
    proof {
        reveal_strlit("authorization_code");
        reveal_strlit("password");
        assert("authorization_code"@.len() != "password"@.len());
    }
    if text_eq(form.grant_type.as_str(), "authorization_code") {
        match form.data.code_grant() {
            Ok(f) => Ok(Grant::Code(f)),
            Err(e) => Err(e),
        }
    } else if text_eq(form.grant_type.as_str(), "password") {
        match form.data.password_grant() {
            Ok(f) => Ok(Grant::Password(f)),
            Err(e) => Err(e),
        }
    } else {
        Err(Error::InvalidRequest)
    }
}

/// A client proves itself with its secret and registered redirect URI.
pub fn authenticate_client(client: &OAuthApplication, client_secret: &str, redirect_uri: &str) -> (r: Result<(), Error>)
    ensures
        r == if client.client_secret@ == client_secret@ && client.redirect_uris@ == redirect_uri@ {
            Ok::<(), Error>(())
        } else {
            Err::<(), Error>(Error::Unauthorized)
        },
{
    if !text_eq(client.client_secret.as_str(), client_secret) || !text_eq(client.redirect_uris.as_str(), redirect_uri) {
        return Err(Error::Unauthorized);
    }
    Ok(())
}

/// RFC 6749: the response type of an authorisation request MUST be `code`.
pub fn check_response_type(query: &QueryParams) -> (r: Result<(), Error>)
    ensures
        r == if query.response_type@ == "code"@ {
            Ok::<(), Error>(())
        } else {
            Err::<(), Error>(Error::InvalidRequest)
        },
{
    if !text_eq(query.response_type.as_str(), "code") {
        return Err(Error::InvalidRequest);
    }
    Ok(())
}

/// The redirect URI of an authorisation request has to be the one the
/// client registered.
pub fn check_redirect_uri(client: &OAuthApplication, query: &QueryParams) -> (r: Result<(), Error>)
    ensures
        r == if client.redirect_uris@ == query.redirect_uri@ {
            Ok::<(), Error>(())
        } else {
            Err::<(), Error>(Error::InvalidRequest)
        },
{
    if !text_eq(client.redirect_uris.as_str(), query.redirect_uri.as_str()) {
        return Err(Error::InvalidRequest);
    }
    Ok(())
}

/// Whether the text begins with the authentication scheme `Bearer`,
/// compared case-insensitively as RFC 7235 asks, followed by a space.
pub open spec fn bearer_scheme(h: Seq<char>) -> bool {
    &&& h.len() >= 7
    &&& (h[0] == 'b' || h[0] == 'B') && (h[1] == 'e' || h[1] == 'E') && (h[2] == 'a' || h[2] == 'A')
    &&& (h[3] == 'r' || h[3] == 'R') && (h[4] == 'e' || h[4] == 'E') && (h[5] == 'r' || h[5] == 'R')
    &&& h[6] == ' '
}

/// The token of a `Bearer` authorisation: the text after the scheme and its
/// space, where that text is not empty.
pub open spec fn bearer_token_of(h: Seq<char>) -> Option<Seq<char>> {
    if bearer_scheme(h) && h.len() > 7 {
        Some(h.skip(7))
    } else {
        None
    }
}

/// The access token of an `Authorization` header value (RFC 6750): the
/// credentials of a `Bearer` authorisation; `None` for any other value.
pub fn bearer_token(authorization: &str) -> (r: Option<String>)
    ensures
        match bearer_token_of(authorization@) {
            Some(t) => r matches Some(s) && s@ == t,
            None => r is None,
        },
{
    let len = authorization.unicode_len();
    if len <= 7 {
        return None;
    }
    let c0 = authorization.get_char(0);
    let c1 = authorization.get_char(1);
    let c2 = authorization.get_char(2);
    let c3 = authorization.get_char(3);
    let c4 = authorization.get_char(4);
    let c5 = authorization.get_char(5);
    let c6 = authorization.get_char(6);
    let scheme = (c0 == 'b' || c0 == 'B') && (c1 == 'e' || c1 == 'E') && (c2 == 'a' || c2 == 'A')
        && (c3 == 'r' || c3 == 'R') && (c4 == 'e' || c4 == 'E') && (c5 == 'r' || c5 == 'R') && c6 == ' ';
    if !scheme {
        return None;
    }
    let token = authorization.substring_char(7, len);
    proof {
        assert(token@ =~= authorization@.skip(7));
    }
    Some(String::from_str(token))
}

/// Whether the redirect URI asks for the code or token to be shown.
pub fn is_out_of_band(redirect_uri: &str) -> (r: bool)
    ensures
        r == (redirect_uri@ == OUT_OF_BAND_URI@),
{
    text_eq(redirect_uri, OUT_OF_BAND_URI)
}

/// How an issued authorisation code reaches the client.
#[derive(Debug)]
pub enum AuthorizeReply {
    /// Show the code on a page.
    Page(String),
    /// Redirect to the client.
    Redirect(String),
}

/// The redirect of a successful authorisation: the code and the state are
/// appended to the redirect URI.
pub open spec fn authorization_redirect(redirect_uri: Seq<char>, code: Seq<char>, state: Seq<char>) -> Seq<char> {
    redirect_uri + "?code="@ + code + "&state="@ + state
}

/// Hand out an issued authorisation code.
pub fn authorize_reply(query: &QueryParams, code: String) -> (r: AuthorizeReply)
    ensures
        query.redirect_uri@ == OUT_OF_BAND_URI@ ==> r == AuthorizeReply::Page(code),
        query.redirect_uri@ != OUT_OF_BAND_URI@ ==> match r {
            AuthorizeReply::Redirect(url) => url@ == authorization_redirect(query.redirect_uri@, code@, query.state@),
            _ => false,
        },
{
    if is_out_of_band(query.redirect_uri.as_str()) {
        AuthorizeReply::Page(code)
    } else {
        let url = String::from_str(query.redirect_uri.as_str()).concat("?code=").concat(code.as_str()).concat(
            "&state=",
        ).concat(query.state.as_str());
        AuthorizeReply::Redirect(url)
    }
}

/// The time until which an authorisation code issued at `now` is valid.
pub fn authorization_code_valid_until(now: i64) -> (r: i64)
    requires
        now <= i64::MAX - AUTHORIZATION_CODE_VALIDITY,
    ensures
        r == now + AUTHORIZATION_CODE_VALIDITY,
{
    now + AUTHORIZATION_CODE_VALIDITY
}

/// The time until which an access token issued at `now` is valid.
pub fn access_token_valid_until(now: i64) -> (r: i64)
    requires
        now <= i64::MAX - ACCESS_TOKEN_VALID_DURATION,
    ensures
        r == now + ACCESS_TOKEN_VALID_DURATION,
{
    now + ACCESS_TOKEN_VALID_DURATION
}

/// An authorisation code issued now: the time of issue and the time until
/// which the code is valid (UNIX timestamps).
pub fn authorization_code_validity() -> (r: (i64, i64))
    ensures
        r.1 == r.0 + AUTHORIZATION_CODE_VALIDITY,
{
    let now = now_unix_timestamp();
    (now, authorization_code_valid_until(now))
}

/// An access token issued now: the time of issue and the time until which
/// the token is valid (UNIX timestamps).
pub fn access_token_validity() -> (r: (i64, i64))
    ensures
        r.1 == r.0 + ACCESS_TOKEN_VALID_DURATION,
{
    let now = now_unix_timestamp();
    (now, access_token_valid_until(now))
}

/// Serialisable struct for responding to an access token request
#[derive(Debug)]
pub struct AccessTokenResponse {
    pub access_token: String,
    pub token_type: String,
    pub scope: String,
    pub created_at: i64,
}

impl Default for AccessTokenResponse {
    fn default() -> (r: Self)
        ensures
            r.access_token@ == Seq::<char>::empty(),
            r.token_type@ == "Bearer"@,
            r.scope@ == "read write follow push"@,
            r.created_at == 0,
    {
        AccessTokenResponse {
            token_type: String::from_str("Bearer"),
            scope: String::from_str("read write follow push"),
            access_token: String::new(),
            created_at: 0,
        }
    }
}

/// How an issued access token reaches the client.
#[derive(Debug)]
pub enum TokenReply {
    /// Show the token on a page.
    Page(String),
    /// Answer with the token as JSON.
    Json(AccessTokenResponse),
}

/// The reply of a code grant: the token is shown to the user for an
/// out-of-band redirect URI, otherwise sent as JSON (whose `created_at`
/// carries the token's validity in seconds).
pub fn code_grant_reply(redirect_uri: &str, access_token: String) -> (r: TokenReply)
    ensures
        redirect_uri@ == OUT_OF_BAND_URI@ ==> r == TokenReply::Page(access_token),
        redirect_uri@ != OUT_OF_BAND_URI@ ==> match r {
            TokenReply::Json(t) => t.access_token == access_token && t.token_type@ == "Bearer"@
                && t.scope@ == "read write follow push"@ && t.created_at == ACCESS_TOKEN_VALID_DURATION,
            _ => false,
        },
{
    if is_out_of_band(redirect_uri) {
        TokenReply::Page(access_token)
    } else {
        let mut response = AccessTokenResponse::default();
        response.access_token = access_token;
        response.created_at = ACCESS_TOKEN_VALID_DURATION;
        TokenReply::Json(response)
    }
}

/// The reply of a password grant, with the token's creation time.
pub fn password_grant_reply(access_token: String, created_at: i64) -> (r: AccessTokenResponse)
    ensures
        r.access_token == access_token,
        r.token_type@ == "Bearer"@,
        r.scope@ == "read write follow push"@,
        r.created_at == created_at,
{
    let mut response = AccessTokenResponse::default();
    response.access_token = access_token;
    response.created_at = created_at;
    response
}

} // verus!
