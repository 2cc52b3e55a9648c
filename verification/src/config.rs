//! The configuration of the service.

use vstd::prelude::*;
use vstd::string::*;

verus! {

/// Where the database is, and who logs in to it.
#[derive(Debug)]
pub struct DbConfig {
    pub host: String,
    pub user: String,
    pub pass: String,
}

/// The address of the database of `user` with the password `pass` at `host`.
pub open spec fn connection_string(user: Seq<char>, pass: Seq<char>, host: Seq<char>) -> Seq<char> {
    "postgres://"@ + user + ":"@ + pass + "@"@ + host + "/mydb"@
}

impl DbConfig {
    /// The address under which the database is reached.
    pub fn get_connection_string(&self) -> (r: String)
        ensures
            r@ == connection_string(self.user@, self.pass@, self.host@),
    {
        let mut out = String::from_str("postgres://");
        out.append(self.user.as_str());
        out.append(":");
        out.append(self.pass.as_str());
        out.append("@");
        out.append(self.host.as_str());
        out.append("/mydb");
        out
    }
}

/// The configuration: the port to listen on, and the database.
#[derive(Debug)]
pub struct Configuration {
    pub port: String,
    pub db: DbConfig,
}

impl Configuration {
    /// The configuration from the values that the environment gives: the
    /// database's host, user and password, and the port, which is 8080 where
    /// the environment names none.
    pub fn from_values(db_host: String, db_user: String, db_pass: String, port: Option<String>) -> (r:
        Configuration)
        ensures
            r.db.host == db_host,
            r.db.user == db_user,
            r.db.pass == db_pass,
            match port {
                Some(p) => r.port == p,
                None => r.port@ == "8080"@,
            },
    {
        Configuration {
            port: match port {
                Some(p) => p,
                None => String::from_str("8080"),
            },
            db: DbConfig { host: db_host, user: db_user, pass: db_pass },
        }
    }
}

} // verus!
