use tranquility::config::{
    Configuration, ConfigurationEmail, ConfigurationInstance, ConfigurationJaeger,
    ConfigurationRatelimit, ConfigurationServer, ConfigurationTls,
};
use tranquility::error::Error;
use tranquility::register::{
    legacy_username_valid, registration_actor, registration_gate, validate_registration,
    RegistrationDecision, RegistrationForm, PASSWORD_LENGTH_MESSAGE, USERNAME_LENGTH_MESSAGE,
    USERNAME_PATTERN_MESSAGE,
};

fn config(closed: bool) -> Configuration {
    Configuration {
        email: ConfigurationEmail {
            active: false,
            server: String::new(),
            starttls: false,
            email: String::new(),
            username: String::new(),
            password: String::new(),
        },
        instance: ConfigurationInstance {
            closed_registrations: closed,
            domain: "social.example".to_string(),
            description: "A test instance".to_string(),
            character_limit: 500,
            upload_limit: 4,
            moderators: Vec::new(),
        },
        jaeger: ConfigurationJaeger { active: false, host: String::new(), port: 0 },
        ratelimit: ConfigurationRatelimit { active: false, authentication_quota: 1, registration_quota: 1 },
        server: ConfigurationServer { interface: "0.0.0.0".to_string(), port: 8080, database_url: String::new() },
        tls: ConfigurationTls { serve_tls_directly: false, certificate: String::new(), secret_key: String::new() },
    }
}

fn form(username: &str, email: &str, password: &str) -> RegistrationForm {
    RegistrationForm { username: username.to_string(), email: email.to_string(), password: password.to_string() }
}

fn failures(r: Result<(), Error>) -> Vec<(String, String, Option<String>)> {
    match r {
        Err(Error::Validation(errors)) => errors.into_iter().map(|e| (e.field, e.code, e.message)).collect(),
        Ok(()) => Vec::new(),
        Err(other) => panic!("unexpected error {:?}", other),
    }
}

#[test]
fn a_valid_registration_passes() {
    assert!(validate_registration(&form("alice_1", "alice@example.com", "correct horse")).is_ok());
}

#[test]
fn every_failed_rule_is_reported_in_order() {
    let f = failures(validate_registration(&form("", "not-an-email", "short")));
    assert_eq!(
        f,
        vec![
            ("username".to_string(), "length".to_string(), Some(USERNAME_LENGTH_MESSAGE.to_string())),
            ("username".to_string(), "regex".to_string(), Some(USERNAME_PATTERN_MESSAGE.to_string())),
            ("email".to_string(), "email".to_string(), None),
            ("password".to_string(), "length".to_string(), Some(PASSWORD_LENGTH_MESSAGE.to_string())),
        ]
    );
}

#[test]
fn username_rules() {
    let long = "a".repeat(33);
    let f = failures(validate_registration(&form(&long, "a@example.com", "password")));
    assert_eq!(f.len(), 1);
    assert_eq!(f[0].1, "length");
    let f = failures(validate_registration(&form("bad name", "a@example.com", "password")));
    assert_eq!(f.len(), 1);
    assert_eq!(f[0].1, "regex");
    assert!(validate_registration(&form(&"a".repeat(32), "a@example.com", "password")).is_ok());
}

#[test]
fn password_needs_eight_characters() {
    assert!(validate_registration(&form("bob", "bob@example.com", "12345678")).is_ok());
    let f = failures(validate_registration(&form("bob", "bob@example.com", "1234567")));
    assert_eq!(f, vec![("password".to_string(), "length".to_string(), Some(PASSWORD_LENGTH_MESSAGE.to_string()))]);
}

#[test]
fn closed_registrations_refuse_before_validation() {
    assert!(matches!(registration_gate(true, &form("", "", "")), Ok(RegistrationDecision::Closed)));
    assert!(matches!(
        registration_gate(false, &form("carol", "carol@example.com", "password")),
        Ok(RegistrationDecision::Open)
    ));
    assert!(matches!(registration_gate(false, &form("carol", "x", "password")), Err(Error::Validation(_))));
}

#[test]
fn registration_actor_urls() {
    let a = registration_actor(&config(false), 1, "alice", "PEM".to_string());
    let id = "https://social.example/users/00000000000000000000000000000001";
    assert_eq!(a.id, id);
    assert_eq!(a.username, "alice");
    assert_eq!(a.inbox, format!("{}/inbox", id));
    assert_eq!(a.outbox, format!("{}/outbox", id));
    assert_eq!(a.followers, format!("{}/followers", id));
    assert_eq!(a.following, format!("{}/following", id));
    assert_eq!(a.public_key.id, format!("{}#main-key", id));
    assert_eq!(a.public_key.owner, id);
    assert_eq!(a.public_key.public_key_pem, "PEM");
}

#[test]
fn legacy_usernames() {
    assert!(legacy_username_valid("alice-1_b"));
    assert!(legacy_username_valid("Alice"));
    assert!(!legacy_username_valid("alice smith"));
    assert!(!legacy_username_valid(""));
    assert!(!legacy_username_valid(&"a".repeat(33)));
    assert!(legacy_username_valid(&"a".repeat(32)));
    // case-insensitive matching folds these two onto `s` and `k`
    assert!(legacy_username_valid("\u{17F}\u{212A}"));
    assert!(!legacy_username_valid("\u{e9}"));
}

#[test]
fn usernames_are_ascii_letters_digits_underscores_and_hyphens() {
    assert!(validate_registration(&form("a-b", "a@example.com", "password")).is_ok());
    assert!(validate_registration(&form("A_9-z", "a@example.com", "password")).is_ok());
    let f = failures(validate_registration(&form("é", "a@example.com", "password")));
    assert_eq!(f, vec![("username".to_string(), "regex".to_string(), Some(USERNAME_PATTERN_MESSAGE.to_string()))]);
    let f = failures(validate_registration(&form("bob\n", "a@example.com", "password")));
    assert_eq!(f.len(), 1);
    assert_eq!(f[0].1, "regex");
}

#[test]
fn registration_actor_is_a_bare_person() {
    let a = registration_actor(&config(false), 2, "bob", "PEM".to_string());
    assert_eq!(a.kind, "Person");
    assert_eq!(a.name, "");
    assert_eq!(a.summary, "");
    assert!(a.icon.is_none() && a.image.is_none());
}
