use zero2prod::configuration::{
    ApplicationSettings, DatabaseSettings, EmailClientSettings, Environment, Settings,
};

#[test]
fn environment_names_round_trip() {
    assert_eq!(Environment::Local.as_str(), "local");
    assert_eq!(Environment::Production.as_str(), "production");
    assert_eq!(Environment::parse("local"), Ok(Environment::Local));
    assert_eq!(Environment::parse("production"), Ok(Environment::Production));
}

#[test]
fn environment_parsing_is_case_insensitive() {
    assert_eq!(Environment::parse("LOCAL"), Ok(Environment::Local));
    assert_eq!(Environment::parse("Production"), Ok(Environment::Production));
}

#[test]
fn unknown_environment_is_rejected_with_a_message() {
    assert_eq!(
        Environment::parse("staging"),
        Err(String::from(
            "staging is not a supported environment. Use either `local` or `production`."
        ))
    );
}

#[test]
fn email_timeout_comes_from_the_configured_milliseconds() {
    let settings = Settings {
        database: DatabaseSettings {
            username: String::from("postgres"),
            password: String::from("password"),
            port: 5432,
            host: String::from("127.0.0.1"),
            database_name: String::from("newsletter"),
            require_ssl: false,
        },
        application: ApplicationSettings { port: 8000, host: String::from("127.0.0.1") },
        email_client: EmailClientSettings {
            base_url: String::from("https://mail.example"),
            sender: String::from("sender@example.com"),
            authorization_token: String::from("server-token"),
            timeout_milliseconds: 200,
        },
    };
    assert_eq!(settings.email_client.timeout(), std::time::Duration::from_millis(200));
}
