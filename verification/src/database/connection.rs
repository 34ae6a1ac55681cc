//! The options with which the service opens its database.
use vstd::prelude::*;

use crate::database::options::{parse_sqlite_options, set_create_if_missing, sqlite_url_error, DbOptions};
use crate::utils::AppError;

verus! {

/// The options for opening the database at `db_path`, set to create the file when
/// it is missing; a path that does not parse is a database error with the parser's text.
pub fn db_connect_options(db_path: &str) -> (r: Result<DbOptions, AppError>)
    ensures
        r is Ok <==> sqlite_url_error(db_path@) is None,
        r matches Ok(o) ==> o.creates_missing_file() && o.source_url() == db_path@,
        r matches Err(e) ==> (e matches AppError::DatabaseError(m) && sqlite_url_error(db_path@)
            == Some(m@)),
{
    match parse_sqlite_options(db_path) {
        Ok(options) => Ok(set_create_if_missing(options, true)),
        Err(m) => Err(AppError::DatabaseError(m)),
    }
}

} // verus!
