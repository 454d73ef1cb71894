//! Account confirmation emails and the SMTP transport they are sent with.
use vstd::prelude::*;
use vstd::string::*;
use crate::config::{Configuration, ConfigurationEmail};
use crate::crypto::token;
use crate::crypto::token::is_lower_hex;

verus! {

#[verifier::external_type_specification]
#[verifier::external_body]
pub struct ExAsyncSmtpTransportBuilder(lettre::transport::smtp::AsyncSmtpTransportBuilder);

#[verifier::external_type_specification]
#[verifier::external_body]
pub struct ExCredentials(lettre::transport::smtp::authentication::Credentials);

/// What an SMTP transport builder holds, as plain values: the server, the
/// port, whether TLS wraps the connection from the start (`true`) or is
/// negotiated with STARTTLS (`false`), and the credentials (username and
/// password), if any.
pub uninterp spec fn smtp_builder_settings(
    builder: lettre::transport::smtp::AsyncSmtpTransportBuilder,
) -> (Seq<char>, u16, bool, Option<(Seq<char>, Seq<char>)>);

/// What SMTP credentials hold: the username and the password.
pub uninterp spec fn smtp_credentials_view(
    credentials: lettre::transport::smtp::authentication::Credentials,
) -> (Seq<char>, Seq<char>);

/// `lettre::AsyncSmtpTransport::relay`: a relay to the server on the SMTPS
/// port (465) with TLS from the start, no credentials. With rustls and its
/// default parameters, building the TLS parameters does not fail, so the
/// result is always `Ok`; an error would be passed on as its message.
#[verifier::external_body]
fn smtp_relay(server: &str) -> (r: Result<lettre::transport::smtp::AsyncSmtpTransportBuilder, String>)
    ensures
        r is Ok,
        r matches Ok(b) ==> smtp_builder_settings(b) == (server@, 465u16, true, None::<(Seq<char>, Seq<char>)>),
{
    lettre::AsyncSmtpTransport::<lettre::Tokio1Executor>::relay(server).map_err(|e| e.to_string())
}

/// `lettre::AsyncSmtpTransport::starttls_relay`: a relay to the server on the
/// submission port (587) that requires STARTTLS, no credentials. As for
/// `relay`, the result is always `Ok`.
#[verifier::external_body]
fn smtp_starttls_relay(server: &str) -> (r: Result<lettre::transport::smtp::AsyncSmtpTransportBuilder, String>)
    ensures
        r is Ok,
        r matches Ok(b) ==> smtp_builder_settings(b) == (server@, 587u16, false, None::<(Seq<char>, Seq<char>)>),
{
    lettre::AsyncSmtpTransport::<lettre::Tokio1Executor>::starttls_relay(server).map_err(|e| e.to_string())
}

/// `lettre::transport::smtp::authentication::Credentials::new`: the username
/// and password, kept as given.
#[verifier::external_body]
fn smtp_credentials(username: String, password: String) -> (r: lettre::transport::smtp::authentication::Credentials)
    ensures
        smtp_credentials_view(r) == (username@, password@),
{
    lettre::transport::smtp::authentication::Credentials::new(username, password)
}

/// `AsyncSmtpTransportBuilder::credentials`: the same builder, authenticating
/// with the credentials.
#[verifier::external_body]
fn with_credentials(
    builder: lettre::transport::smtp::AsyncSmtpTransportBuilder,
    credentials: lettre::transport::smtp::authentication::Credentials,
) -> (r: lettre::transport::smtp::AsyncSmtpTransportBuilder)
    ensures
        smtp_builder_settings(r) == (
            smtp_builder_settings(builder).0,
            smtp_builder_settings(builder).1,
            smtp_builder_settings(builder).2,
            Some(smtp_credentials_view(credentials)),
        ),
{
    builder.credentials(credentials)
}

/// The transport the email configuration asks for: the configured server,
/// with STARTTLS on the submission port (587) when `starttls` is set, with
/// TLS from the start on the SMTPS port (465) otherwise, authenticating with
/// the configured username and password.
pub open spec fn configured_transport(config: ConfigurationEmail) -> (
    Seq<char>,
    u16,
    bool,
    Option<(Seq<char>, Seq<char>)>,
) {
    (
        config.server@,
        if config.starttls { 587u16 } else { 465u16 },
        !config.starttls,
        Some((config.username@, config.password@)),
    )
}

/// The configured transport goes to the configured server and always
/// authenticates with the configured username and password; `starttls`
/// selects STARTTLS on port 587, otherwise TLS from the start on port 465.
pub proof fn law_transport_authenticates_with_the_configured_credentials(config: ConfigurationEmail)
    ensures
        configured_transport(config).0 == config.server@,
        configured_transport(config).3 == Some((config.username@, config.password@)),
        config.starttls ==> configured_transport(config).1 == 587 && !configured_transport(config).2,
        !config.starttls ==> configured_transport(config).1 == 465 && configured_transport(config).2,
{
}

/// Prepare the SMTP transport from the email configuration. (Building the
/// transport from the builder, for the tokio executor, is the caller's.)
pub fn init_transport(config: &ConfigurationEmail) -> (r: Result<lettre::transport::smtp::AsyncSmtpTransportBuilder, String>)
    ensures
        r matches Ok(b) && smtp_builder_settings(b) == configured_transport(*config),
        r matches Ok(b) ==> smtp_builder_settings(b).0 == config.server@
            && smtp_builder_settings(b).3 == Some((config.username@, config.password@))
            && (config.starttls ==> smtp_builder_settings(b).1 == 587 && !smtp_builder_settings(b).2)
            && (!config.starttls ==> smtp_builder_settings(b).1 == 465 && smtp_builder_settings(b).2),
{
    let builder = if config.starttls {
        smtp_starttls_relay(config.server.as_str())
    } else {
        smtp_relay(config.server.as_str())
    };
    let builder = match builder {
        Ok(b) => b,
        Err(message) => return Err(message),
    };
    let credentials = smtp_credentials(config.username.clone(), config.password.clone());
    Ok(with_credentials(builder, credentials))
}

/// The outcome of updating the transport.
pub enum TransportUpdate {
    /// Replace the current transport by one built from this builder.
    Replace(lettre::transport::smtp::AsyncSmtpTransportBuilder),
    /// No transport is in use yet; none is installed.
    NotInitialised,
}

/// Attempt to update the transport on configuration change: a new transport
/// replaces the one in use, if one is in use.
pub fn update_transport(config: &ConfigurationEmail, transport_in_use: bool) -> (r: TransportUpdate)
    ensures
        transport_in_use ==> (r matches TransportUpdate::Replace(b) && smtp_builder_settings(b)
            == configured_transport(*config)),
        !transport_in_use ==> r is NotInitialised,
        r matches TransportUpdate::Replace(b) ==> smtp_builder_settings(b).0 == config.server@
            && smtp_builder_settings(b).3 == Some((config.username@, config.password@)),
{
    match init_transport(config) {
        Ok(builder) => {
            if transport_in_use {
                TransportUpdate::Replace(builder)
            } else {
                TransportUpdate::NotInitialised
            }
        },
        Err(_) => TransportUpdate::NotInitialised,
    }
}

/// The subject of confirmation emails.
pub const CONFIRMATION_SUBJECT: &'static str = "Account confirmation";

/// A confirmation email's link and text.
#[derive(Debug)]
pub struct ConfirmationMail {
    pub url: String,
    pub body: String,
}

/// The link that confirms an account.
pub open spec fn confirmation_url(domain: Seq<char>, code: Seq<char>) -> Seq<char> {
    "https://"@ + domain + "/confirm-account/"@ + code
}

/// The text of a confirmation email.
pub open spec fn confirmation_body(domain: Seq<char>, url: Seq<char>) -> Seq<char> {
    "Hello, thank you for creating an account on "@ + domain
        + "!\nTo confirm your account, please visit the URL below:\n"@ + url
}

/// The confirmation email for a confirmation code.
pub fn confirmation_mail(domain: &str, code: &str) -> (r: ConfirmationMail)
    ensures
        r.url@ == confirmation_url(domain@, code@),
        r.body@ == confirmation_body(domain@, r.url@),
{
    let url = String::from_str("https://").concat(domain).concat("/confirm-account/").concat(code);
    let body = String::from_str("Hello, thank you for creating an account on ").concat(domain).concat(
        "!\nTo confirm your account, please visit the URL below:\n",
    ).concat(url.as_str());
    ConfirmationMail { url, body }
}

/// A stored user account (the parts that confirmation changes).
#[derive(Debug)]
pub struct UserAccount {
    pub id: u128,
    pub username: String,
    pub email: Option<String>,
    pub is_confirmed: bool,
    pub confirmation_code: Option<String>,
}

/// Prepare the confirmation of a new account: nothing happens when email is
/// not active; otherwise the account gets a fresh confirmation code, becomes
/// unconfirmed, and the email to send is returned.
pub fn prepare_confirmation(config: &Configuration, user: &mut UserAccount) -> (r: Option<ConfirmationMail>)
    ensures
        !config.email.active ==> r is None && *final(user) == *old(user),
        config.email.active ==> match (r, final(user).confirmation_code) {
            (Some(mail), Some(code)) => code@.len() == 40
                && (forall|i: int| 0 <= i < code@.len() ==> is_lower_hex(#[trigger] code@[i]))
                && !final(user).is_confirmed
                && mail.url@ == confirmation_url(config.instance.domain@, code@)
                && mail.body@ == confirmation_body(config.instance.domain@, mail.url@)
                && final(user).id == old(user).id && final(user).username == old(user).username
                && final(user).email == old(user).email,
            _ => false,
        },
{
    if !config.email.active {
        return None;
    }
    let code = token::generate();
    let mail = confirmation_mail(config.instance.domain.as_str(), code.as_str());
    user.confirmation_code = Some(code);
    user.is_confirmed = false;
    Some(mail)
}

/// Confirm an account: it becomes confirmed, nothing else changes.
pub fn confirm_account(user: &mut UserAccount)
    ensures
        final(user).is_confirmed,
        final(user).id == old(user).id,
        final(user).username == old(user).username,
        final(user).email == old(user).email,
        final(user).confirmation_code == old(user).confirmation_code,
{
    user.is_confirmed = true;
}

} // verus!
