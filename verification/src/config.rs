//! The server's configuration and its command line options.
use vstd::prelude::*;

verus! {

/// Struct holding the email configuration values
#[derive(Debug)]
pub struct ConfigurationEmail {
    pub active: bool,
    pub server: String,
    pub starttls: bool,
    pub email: String,
    pub username: String,
    pub password: String,
}

/// Struct holding the instance specific configuration values
#[derive(Debug)]
pub struct ConfigurationInstance {
    pub closed_registrations: bool,
    pub domain: String,
    pub description: String,
    pub character_limit: usize,
    pub upload_limit: u64,
    pub moderators: Vec<String>,
}

/// Struct holding the jaeger specific configuration values
#[derive(Debug)]
pub struct ConfigurationJaeger {
    pub active: bool,
    pub host: String,
    pub port: u16,
}

/// Struct holding the ratelimit specific configuration values
#[derive(Debug)]
pub struct ConfigurationRatelimit {
    pub active: bool,
    pub authentication_quota: u32,
    pub registration_quota: u32,
}

/// Struct holding the HTTP server specific configuration values
#[derive(Debug)]
pub struct ConfigurationServer {
    pub interface: String,
    pub port: u16,
    pub database_url: String,
}

/// Struct holding the TLS specific configuration values
#[derive(Debug)]
pub struct ConfigurationTls {
    pub serve_tls_directly: bool,
    pub certificate: String,
    pub secret_key: String,
}

/// Struct holding the configuration values
#[derive(Debug)]
pub struct Configuration {
    pub email: ConfigurationEmail,
    pub instance: ConfigurationInstance,
    pub jaeger: ConfigurationJaeger,
    pub ratelimit: ConfigurationRatelimit,
    pub server: ConfigurationServer,
    pub tls: ConfigurationTls,
}

/// Command line options: the configuration file's path and whether only the
/// version is to be printed.
#[derive(Debug)]
pub struct Opts {
    pub config: String,
    pub version: bool,
}

} // verus!
