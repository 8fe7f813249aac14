//! Settings and environment parsing.

use mailbolt::config::{ApplicationBaseUrl, ApplicationSettings, EmailClientSettings, Environment};
use mailbolt::http::HttpStatus;

#[test]
fn environment_names_round_trip() {
    assert_eq!(Environment::Local.as_str(), "local");
    assert_eq!(Environment::Prod.as_str(), "prod");
    assert!(matches!(
        Environment::try_from("local".to_string()),
        Ok(Environment::Local)
    ));
    assert!(matches!(
        Environment::try_from("prod".to_string()),
        Ok(Environment::Prod)
    ));
}

#[test]
fn environment_parsing_ignores_case_and_whitespace() {
    assert!(matches!(
        Environment::try_from(" LOCAL ".to_string()),
        Ok(Environment::Local)
    ));
    assert!(matches!(
        Environment::try_from("Prod\n".to_string()),
        Ok(Environment::Prod)
    ));
}

#[test]
fn an_unknown_environment_is_rejected_with_its_name() {
    let err = Environment::try_from("staging".to_string()).unwrap_err();
    assert_eq!(
        err,
        "staging is not a suppported environment. Use either 'local' or 'prod'"
    );
}

#[test]
fn the_configured_sender_is_validated_like_any_email() {
    let ok = EmailClientSettings {
        base_url: "https://provider.example".to_string(),
        sender_email: "news@mailbolt.example".to_string(),
        auth_token: "sometoken".to_string(),
    };
    assert_eq!(ok.sender().unwrap().as_ref(), "news@mailbolt.example");

    let bad = EmailClientSettings {
        base_url: "https://provider.example".to_string(),
        sender_email: "definitely-not-an-email".to_string(),
        auth_token: "sometoken".to_string(),
    };
    assert!(bad.sender().is_err());
}

#[test]
fn status_codes_match_their_meaning() {
    assert_eq!(HttpStatus::Success.code(), 200);
    assert_eq!(HttpStatus::BadRequest.code(), 400);
    assert_eq!(HttpStatus::Unauthorized.code(), 401);
    assert_eq!(HttpStatus::ServerError.code(), 500);
}

#[test]
fn application_settings_carry_host_and_port() {
    let settings = ApplicationSettings { port: 8000, host: "127.0.0.1".to_string() };
    assert_eq!(settings.port, 8000);
    assert_eq!(settings.host, "127.0.0.1");
}

#[test]
fn the_base_url_is_carried_as_given() {
    let base = ApplicationBaseUrl("https://mailbolt.example".to_string());
    assert_eq!(base.0, "https://mailbolt.example");
}
