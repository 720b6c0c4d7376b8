//! The settings of the pool of database connections, read from the
//! environment.
use vstd::prelude::*;

verus! {

/// The environment variable that holds the database server's host.
pub const PG_HOST_VAR: &'static str = "PG.HOST";

/// The environment variable that holds the database user.
pub const PG_USER_VAR: &'static str = "PG.USER";

/// The environment variable that holds the database's name.
pub const PG_DBNAME_VAR: &'static str = "PG.DBNAME";

/// The environment variable that holds the user's password.
pub const PG_PASSWORD_VAR: &'static str = "PG.PASSWORD";

/// The most connections the pool keeps open at once.
pub const POOL_MAX_SIZE: usize = 16;

/// How the pool checks a connection before it hands it out again.
#[derive(Clone, Copy, Debug, PartialEq, Eq)]
pub enum Recycling {
    /// Only check that the connection is still open.
    Fast,
    /// Run a test query on the connection.
    Verified,
}

/// The recycling method of the pool: the fast check.
pub const POOL_RECYCLING: Recycling = Recycling::Fast;

/// Where and as whom the pool connects.
pub struct DbSettings {
    /// The database server's host.
    pub host: String,
    /// The database user.
    pub user: String,
    /// The database's name.
    pub dbname: String,
    /// The user's password.
    pub password: String,
}

/// The name of the first of the four variables, in the order `PG.HOST`,
/// `PG.USER`, `PG.DBNAME`, `PG.PASSWORD`, whose value is `None` (not set).
pub open spec fn first_missing(
    host: Option<String>,
    user: Option<String>,
    dbname: Option<String>,
    password: Option<String>,
) -> Option<Seq<char>> {
    if host is None {
        Some(PG_HOST_VAR@)
    } else if user is None {
        Some(PG_USER_VAR@)
    } else if dbname is None {
        Some(PG_DBNAME_VAR@)
    } else if password is None {
        Some(PG_PASSWORD_VAR@)
    } else {
        None
    }
}

/// The settings from the values of `PG.HOST`, `PG.USER`, `PG.DBNAME` and
/// `PG.PASSWORD`; when one of them is not set, the name of the first such
/// variable, in that order.
pub fn db_settings_from_env(
    host: Option<String>,
    user: Option<String>,
    dbname: Option<String>,
    password: Option<String>,
) -> (settings: Result<DbSettings, String>)
    ensures
        first_missing(host, user, dbname, password) matches Some(name) ==> (settings matches Err(
            missing) && missing@ == name),
        first_missing(host, user, dbname, password) is None ==> (settings matches Ok(s) && s.host
            == host->0 && s.user == user->0 && s.dbname == dbname->0 && s.password
            == password->0),
{
    match (host, user, dbname, password) {
        (Some(host), Some(user), Some(dbname), Some(password)) => Ok(
            DbSettings { host, user, dbname, password },
        ),
        (None, _, _, _) => Err(String::from_str(PG_HOST_VAR)),
        (Some(_), None, _, _) => Err(String::from_str(PG_USER_VAR)),
        (Some(_), Some(_), None, _) => Err(String::from_str(PG_DBNAME_VAR)),
        (Some(_), Some(_), Some(_), None) => Err(String::from_str(PG_PASSWORD_VAR)),
    }
}

} // verus!
