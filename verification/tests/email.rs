use tranquility::config::{
    Configuration, ConfigurationEmail, ConfigurationInstance, ConfigurationJaeger,
    ConfigurationRatelimit, ConfigurationServer, ConfigurationTls,
};
use tranquility::email::{
    confirm_account, confirmation_mail, init_transport, prepare_confirmation, update_transport,
    TransportUpdate, UserAccount, CONFIRMATION_SUBJECT,
};

fn config(closed: bool) -> Configuration {
    Configuration {
        email: ConfigurationEmail {
            active: false,
            server: String::new(),
            starttls: false,
            email: String::new(),
            username: String::new(),
            password: String::new(),
        },
        instance: ConfigurationInstance {
            closed_registrations: closed,
            domain: "social.example".to_string(),
            description: "A test instance".to_string(),
            character_limit: 500,
            upload_limit: 4,
            moderators: Vec::new(),
        },
        jaeger: ConfigurationJaeger { active: false, host: String::new(), port: 0 },
        ratelimit: ConfigurationRatelimit { active: false, authentication_quota: 1, registration_quota: 1 },
        server: ConfigurationServer { interface: "0.0.0.0".to_string(), port: 8080, database_url: String::new() },
        tls: ConfigurationTls { serve_tls_directly: false, certificate: String::new(), secret_key: String::new() },
    }
}

fn email_config(starttls: bool) -> ConfigurationEmail {
    ConfigurationEmail {
        active: true,
        server: "smtp.example.com".to_string(),
        starttls,
        email: "noreply@social.example".to_string(),
        username: "mailer".to_string(),
        password: "secret".to_string(),
    }
}

fn user() -> UserAccount {
    UserAccount {
        id: 9,
        username: "alice".to_string(),
        email: Some("alice@example.com".to_string()),
        is_confirmed: true,
        confirmation_code: None,
    }
}

#[test]
fn confirmation_mail_text() {
    let m = confirmation_mail("social.example", "abc123");
    assert_eq!(m.url, "https://social.example/confirm-account/abc123");
    assert_eq!(
        m.body,
        "Hello, thank you for creating an account on social.example!\nTo confirm your account, please visit the URL below:\nhttps://social.example/confirm-account/abc123"
    );
    assert_eq!(CONFIRMATION_SUBJECT, "Account confirmation");
}

#[test]
fn no_confirmation_without_email() {
    let mut u = user();
    assert!(prepare_confirmation(&config(false), &mut u).is_none());
    assert!(u.is_confirmed);
    assert!(u.confirmation_code.is_none());
}

#[test]
fn confirmation_sets_a_fresh_code() {
    let mut c = config(false);
    c.email.active = true;
    let mut u = user();
    let mail = prepare_confirmation(&c, &mut u).unwrap();
    let code = u.confirmation_code.clone().unwrap();
    assert_eq!(code.len(), 40);
    assert!(code.chars().all(|ch| ch.is_ascii_hexdigit() && !ch.is_ascii_uppercase()));
    assert!(!u.is_confirmed);
    assert_eq!(u.id, 9);
    assert_eq!(mail.url, format!("https://social.example/confirm-account/{}", code));

    let mut again = user();
    prepare_confirmation(&c, &mut again).unwrap();
    assert_ne!(again.confirmation_code.unwrap(), code);
}

#[test]
fn confirming_an_account() {
    let mut u = user();
    u.is_confirmed = false;
    u.confirmation_code = Some("c".to_string());
    confirm_account(&mut u);
    assert!(u.is_confirmed);
    assert_eq!(u.confirmation_code, Some("c".to_string()));
    assert_eq!(u.username, "alice");
}

#[test]
fn transport_updates() {
    assert!(init_transport(&email_config(true)).is_ok());
    assert!(init_transport(&email_config(false)).is_ok());
    assert!(matches!(update_transport(&email_config(true), true), TransportUpdate::Replace(_)));
    assert!(matches!(update_transport(&email_config(true), false), TransportUpdate::NotInitialised));
    assert!(matches!(update_transport(&email_config(false), false), TransportUpdate::NotInitialised));
}
