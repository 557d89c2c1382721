//! The datastore connection target: host, database and authentication mode,
//! with the built-in production defaults.

use vstd::prelude::*;

use crate::error::Error;

verus! {

/// How the datastore connection authenticates.
#[derive(Debug, Clone)]
pub enum AuthMode {
    /// Use the ambient machine credentials.
    Integrated,
    /// Sign in with an explicit account.
    SqlServer { user: String, password: String },
}

/// The built-in production host name.
pub open spec fn prod_host() -> Seq<char> {
    "PRDLGDB2"@
}

/// The built-in production database name.
pub open spec fn prod_db() -> Seq<char> {
    "BP_PRD"@
}

/// Names the datastore a batch run reads its worker records from.
#[derive(Debug, Clone)]
pub struct DbInfo {
    pub host: String,
    pub db: String,
    pub auth: AuthMode,
}

impl DbInfo {
    /// The built-in production target, with integrated authentication.
    pub fn from_static() -> (r: DbInfo)
        ensures
            r.host@ == prod_host(),
            r.db@ == prod_db(),
            r.auth is Integrated,
    {
        DbInfo {
            host: String::from_str("PRDLGDB2"),
            db: String::from_str("BP_PRD"),
            auth: AuthMode::Integrated,
        }
    }

    /// Builds the connection target; today that is always the built-in
    /// production target, and construction never fails.
    pub fn new() -> (r: Result<DbInfo, Error>)
        ensures
            r is Ok,
            (r->Ok_0).host@ == prod_host(),
            (r->Ok_0).db@ == prod_db(),
            (r->Ok_0).auth is Integrated,
    {
        Ok(DbInfo::from_static())
    }

    /// Substitutes the production defaults for whichever of the two parts is
    /// empty; always answers.
    pub fn check_empty<'a>(host: &'a str, db: &'a str) -> (r: Option<(&'a str, &'a str)>)
        ensures
            r is Some,
            (r->0).0@ == (if host@.len() == 0 {
                prod_host()
            } else {
                host@
            }),
            (r->0).1@ == (if db@.len() == 0 {
                prod_db()
            } else {
                db@
            }),
    {
        let h = if host.is_empty() {
            "PRDLGDB2"
        } else {
            host
        };
        let d = if db.is_empty() {
            "BP_PRD"
        } else {
            db
        };
        Some((h, d))
    }
}

} // verus!
