use fittrack::configuration::{override_text, Config, Database, Overrides, Server};

fn config() -> Config {
    Config::new(
        Server { ip: String::from("0.0.0.0"), port: String::from("3000") },
        Database {
            username: String::from("fit"),
            password: String::from("pw"),
            host: String::from("localhost"),
            port: 5432,
            dbname: String::from("fittrack"),
            schema: String::from("fittrack"),
        },
    )
}

fn nothing() -> Overrides {
    Overrides {
        server_ip: None,
        server_port: None,
        database_host: None,
        database_port: None,
        database_username: None,
        database_password: None,
        database_name: None,
        schema: None,
    }
}

#[test]
fn settings_are_handed_out_as_copies() {
    let config = config();
    assert_eq!(config.get_db_properties(), config.database);
    assert_eq!(config.get_server_properties(), config.server);
    assert_eq!(config.get_server_properties().port, "3000");
    assert_eq!(config.get_db_properties().port, 5432);
}

#[test]
fn addresses_are_put_together() {
    let config = config();
    assert_eq!(config.server.address(), "0.0.0.0:3000");
    assert_eq!(config.database.connection_url(), "postgres://fit:pw@localhost:5432/fittrack");
    let mut database = config.get_db_properties();
    database.port = 0;
    assert_eq!(database.connection_url(), "postgres://fit:pw@localhost:0/fittrack");
    database.port = 65535;
    assert_eq!(database.connection_url(), "postgres://fit:pw@localhost:65535/fittrack");
}

#[test]
fn environment_takes_the_place_of_the_file() {
    assert_eq!(config().with_overrides(nothing()), config());
    let mut given = nothing();
    given.server_port = Some(String::from("8080"));
    given.database_host = Some(String::from("db"));
    given.database_port = Some(6543);
    given.schema = Some(String::from("test"));
    let changed = config().with_overrides(given);
    assert_eq!(changed.server.ip, "0.0.0.0");
    assert_eq!(changed.server.port, "8080");
    assert_eq!(changed.database.host, "db");
    assert_eq!(changed.database.port, 6543);
    assert_eq!(changed.database.username, "fit");
    assert_eq!(changed.database.password, "pw");
    assert_eq!(changed.database.dbname, "fittrack");
    assert_eq!(changed.database.schema, "test");
    let mut given = nothing();
    given.server_ip = Some(String::from("127.0.0.1"));
    given.database_username = Some(String::from("u"));
    given.database_password = Some(String::from("p"));
    given.database_name = Some(String::from("n"));
    let changed = config().with_overrides(given);
    assert_eq!(changed.server.address(), "127.0.0.1:3000");
    assert_eq!(changed.database.connection_url(), "postgres://u:p@localhost:5432/n");
    assert_eq!(override_text(String::from("a"), None), "a");
    assert_eq!(override_text(String::from("a"), Some(String::from("b"))), "b");
}
