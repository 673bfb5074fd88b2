//! The settings of the server and of its database.

use crate::text::{decimal, push_decimal};
use vstd::prelude::*;
use vstd::string::StringExecFns;

verus! {

/// Where the server listens.
#[derive(Clone, Debug, PartialEq, Eq)]
pub struct Server {
    pub ip: String,
    pub port: String,
}

/// How the database is reached.
#[derive(Clone, Debug, PartialEq, Eq)]
pub struct Database {
    pub username: String,
    pub password: String,
    pub host: String,
    pub port: u16,
    pub dbname: String,
    pub schema: String,
}

/// The settings as they are read from the settings file.
#[derive(Clone, Debug, PartialEq, Eq)]
pub struct Config {
    pub server: Server,
    pub database: Database,
}

/// Settings from the environment. Each one that is there takes the place of
/// the setting of the file.
#[derive(Clone, Debug, PartialEq, Eq)]
pub struct Overrides {
    pub server_ip: Option<String>,
    pub server_port: Option<String>,
    pub database_host: Option<String>,
    pub database_port: Option<u16>,
    pub database_username: Option<String>,
    pub database_password: Option<String>,
    pub database_name: Option<String>,
    pub schema: Option<String>,
}

/// The setting `given` where it is there, otherwise `from_file`.
pub fn override_text(from_file: String, given: Option<String>) -> (r: String)
    ensures
        r == match given {
            Some(value) => value,
            None => from_file,
        },
{
    match given {
        Some(value) => value,
        None => from_file,
    }
}

impl Server {
    /// The address to listen on: the host, a colon and the port.
    pub open spec fn address_text(self) -> Seq<char> {
        self.ip@ + seq![':'] + self.port@
    }

    /// The address to listen on.
    pub fn address(&self) -> (r: String)
        ensures
            r@ == self.address_text(),
    {
        let mut out = self.ip.clone();
        out.append(":");
        out.append(self.port.as_str());
        proof {
            reveal_strlit(":");
            assert(":"@ =~= seq![':']);
        }
        out
    }
}

impl Database {
    /// The address of the database: `postgres://`, the user and the
    /// password, the host and the port, and the name of the database.
    pub open spec fn url_text(self) -> Seq<char> {
        "postgres://"@ + self.username@ + seq![':'] + self.password@ + seq!['@'] + self.host@
            + seq![':'] + decimal(self.port as nat) + seq!['/'] + self.dbname@
    }

    /// The address of the database.
    pub fn connection_url(&self) -> (r: String)
        ensures
            r@ == self.url_text(),
    {
        let mut out = String::from_str("postgres://");
        out.append(self.username.as_str());
        out.append(":");
        out.append(self.password.as_str());
        out.append("@");
        out.append(self.host.as_str());
        out.append(":");
        push_decimal(&mut out, self.port as u64);
        out.append("/");
        out.append(self.dbname.as_str());
        proof {
            reveal_strlit(":");
            reveal_strlit("@");
            reveal_strlit("/");
            assert(":"@ =~= seq![':']);
            assert("@"@ =~= seq!['@']);
            assert("/"@ =~= seq!['/']);
        }
        out
    }
}

impl Config {
    /// The settings made of those of the server and of the database.
    pub fn new(server: Server, database: Database) -> (r: Config)
        ensures
            r.server == server,
            r.database == database,
    {
        Config { server, database }
    }

    /// A copy of the database's settings.
    pub fn get_db_properties(&self) -> (r: Database)
        ensures
            r == self.database,
    {
        Database {
            username: self.database.username.clone(),
            password: self.database.password.clone(),
            host: self.database.host.clone(),
            port: self.database.port,
            dbname: self.database.dbname.clone(),
            schema: self.database.schema.clone(),
        }
    }

    /// A copy of the server's settings.
    pub fn get_server_properties(&self) -> (r: Server)
        ensures
            r == self.server,
    {
        Server { ip: self.server.ip.clone(), port: self.server.port.clone() }
    }

    /// The settings with those of the environment in place of those of the
    /// file, as far as the environment has them.
    pub fn with_overrides(self, given: Overrides) -> (r: Config)
        ensures
            r.server.ip == (match given.server_ip {
                Some(value) => value,
                None => self.server.ip,
            }),
            r.server.port == (match given.server_port {
                Some(value) => value,
                None => self.server.port,
            }),
            r.database.host == (match given.database_host {
                Some(value) => value,
                None => self.database.host,
            }),
            r.database.port == (match given.database_port {
                Some(value) => value,
                None => self.database.port,
            }),
            r.database.username == (match given.database_username {
                Some(value) => value,
                None => self.database.username,
            }),
            r.database.password == (match given.database_password {
                Some(value) => value,
                None => self.database.password,
            }),
            r.database.dbname == (match given.database_name {
                Some(value) => value,
                None => self.database.dbname,
            }),
            r.database.schema == (match given.schema {
                Some(value) => value,
                None => self.database.schema,
            }),
    {
        Config {
            server: Server {
                ip: override_text(self.server.ip, given.server_ip),
                port: override_text(self.server.port, given.server_port),
            },
            database: Database {
                username: override_text(self.database.username, given.database_username),
                password: override_text(self.database.password, given.database_password),
                host: override_text(self.database.host, given.database_host),
                port: match given.database_port {
                    Some(value) => value,
                    None => self.database.port,
                },
                dbname: override_text(self.database.dbname, given.database_name),
                schema: override_text(self.database.schema, given.schema),
            },
        }
    }
}

} // verus!
