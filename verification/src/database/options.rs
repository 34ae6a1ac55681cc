//! sqlx's SQLite connection options, with what this service needs to know of them.
use vstd::prelude::*;

use sqlx::sqlite::SqliteConnectOptions;

verus! {

/// Declares sqlx's SQLite connection options; their contents are opaque here.
#[verifier::external_type_specification]
#[verifier::external_body]
pub struct ExSqliteConnectOptions(sqlx::sqlite::SqliteConnectOptions);

/// Name for what parsing a connection URL with `SqliteConnectOptions::from_str`
/// gives: `None` when it parses, else the text of its error.
pub uninterp spec fn sqlite_url_error(db_path: Seq<char>) -> Option<Seq<char>>;

/// Connection options together with the URL they were parsed from and the value,
/// if any, that this library set for creating a missing database file. Its fields
/// are private: only the wrappers below build one.
pub struct DbOptions {
    options: SqliteConnectOptions,
    source: Ghost<Seq<char>>,
    create: Ghost<Option<bool>>,
}

impl DbOptions {
    /// The connection URL that these options were parsed from.
    pub closed spec fn source_url(&self) -> Seq<char> {
        self.source@
    }

    /// The value last given to `create_if_missing` on these options, or `None`
    /// when it was left as the URL set it.
    pub closed spec fn create_if_missing_set(&self) -> Option<bool> {
        self.create@
    }

    /// Whether these options were set to create the database file when it does not exist.
    pub open spec fn creates_missing_file(&self) -> bool {
        self.create_if_missing_set() == Some(true)
    }

    /// The connection options themselves.
    pub fn into_options(self) -> SqliteConnectOptions {
        self.options
    }
}

/// `<SqliteConnectOptions as FromStr>::from_str`. It parses `db_path` (scheme,
/// percent-decoded file name, query parameters) without reading anything else;
/// whether it succeeds and its error text are named by `sqlite_url_error`. The
/// options it builds are recorded as parsed from `db_path`; their contents are
/// not described.
#[verifier::external_body]
pub(crate) fn parse_sqlite_options(db_path: &str) -> (r: Result<DbOptions, String>)
    ensures
        r is Ok <==> sqlite_url_error(db_path@) is None,
        r matches Err(m) ==> sqlite_url_error(db_path@) == Some(m@),
        r matches Ok(o) ==> o.source_url() == db_path@ && o.create_if_missing_set() is None,
{
    match db_path.parse::<SqliteConnectOptions>() {
        Ok(options) => Ok(DbOptions { options, source: Ghost(db_path@), create: Ghost(None) }),
        Err(e) => Err(e.to_string()),
    }
}

/// `SqliteConnectOptions::create_if_missing(create)`: its only effect is to set the
/// options' flag that creates the database file when it does not exist to `create`,
/// which the result records; the URL they came from is kept, and nothing else about
/// the opaque options is stated.
#[verifier::external_body]
pub(crate) fn set_create_if_missing(options: DbOptions, create: bool) -> (r: DbOptions)
    ensures
        r.creates_missing_file() == create,
        r.create_if_missing_set() == Some(create),
        r.source_url() == options.source_url(),
{
    DbOptions {
        options: options.options.create_if_missing(create),
        source: options.source,
        create: Ghost(Some(create)),
    }
}

} // verus!
