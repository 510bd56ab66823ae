use zero2prod::configurations::{
    environment_from_var, ConnectOptions, DatabaseSettings, Environment, SslMode,
};
use zero2prod::logging::LogLevel;

#[test]
fn environment_names() {
    assert_eq!(Environment::Local.as_str(), "local");
    assert_eq!(Environment::Production.as_str(), "production");
}

#[test]
fn environment_reads_back_from_its_name() {
    for env in [Environment::Local, Environment::Production] {
        assert_eq!(Environment::try_from(env.as_str().to_owned()), Ok(env));
    }
}

#[test]
fn environment_names_ignore_case() {
    assert_eq!(Environment::try_from("LOCAL".to_owned()), Ok(Environment::Local));
    assert_eq!(Environment::try_from("Production".to_owned()), Ok(Environment::Production));
}

#[test]
fn unsupported_environment_is_rejected_with_its_lowercase_name() {
    assert_eq!(
        Environment::try_from("Staging".to_owned()),
        Err("staging is not a supported environment Use either 'local' or 'production'".to_owned())
    );
}

#[test]
fn environment_defaults_to_local() {
    assert_eq!(environment_from_var(None), Ok(Environment::Local));
    assert_eq!(environment_from_var(Some("production".to_owned())), Ok(Environment::Production));
}

#[test]
fn from_lowercase_is_exact() {
    assert_eq!(Environment::from_lowercase("local".to_owned()), Ok(Environment::Local));
    assert!(Environment::from_lowercase("LOCAL".to_owned()).is_err());
}

fn settings(require_ssl: bool) -> DatabaseSettings {
    DatabaseSettings {
        username: "app".to_owned(),
        password: "secret".to_owned(),
        port: 5432,
        host: "db.internal".to_owned(),
        database_name: "newsletter".to_owned(),
        require_ssl,
    }
}

fn check_server(options: &ConnectOptions, ssl: SslMode) {
    assert_eq!(options.host, "db.internal");
    assert_eq!(options.port, 5432);
    assert_eq!(options.username, "app");
    assert_eq!(options.password, "secret");
    assert_eq!(options.ssl_mode, ssl);
}

#[test]
fn without_db_names_no_database() {
    let options = settings(false).without_db();
    check_server(&options, SslMode::Prefer);
    assert_eq!(options.database, None);
    assert_eq!(options.log_statements, None);
}

#[test]
fn with_db_names_the_database_and_traces_statements() {
    let options = settings(true).with_db();
    check_server(&options, SslMode::Require);
    assert_eq!(options.database.as_deref(), Some("newsletter"));
    assert_eq!(options.log_statements, Some(LogLevel::Trace));
}
