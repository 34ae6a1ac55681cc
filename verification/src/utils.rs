//! Errors of the service and the replies they become.
use vstd::prelude::*;

use crate::api::{Reply, STATUS_BAD_REQUEST, STATUS_INTERNAL_SERVER_ERROR, STATUS_NOT_FOUND};

verus! {

/// An error of a request, with its description.
#[derive(Debug, Clone)]
pub enum AppError {
    /// The database refused or failed.
    DatabaseError(String),
    /// The server failed on its own side (files, directories).
    Internal(String),
    /// The request itself was malformed.
    BadRequest(String),
    /// What the request names does not exist.
    NotFound(String),
}

impl AppError {
    /// The status of the reply for this error: `400` for a bad request, `404`
    /// for something that does not exist, `500` otherwise.
    pub open spec fn spec_status(&self) -> u16 {
        match self {
            AppError::BadRequest(_) => STATUS_BAD_REQUEST,
            AppError::NotFound(_) => STATUS_NOT_FOUND,
            _ => STATUS_INTERNAL_SERVER_ERROR,
        }
    }

    /// The description the error carries.
    pub open spec fn spec_detail(&self) -> Seq<char> {
        match self {
            AppError::DatabaseError(m) => m@,
            AppError::Internal(m) => m@,
            AppError::BadRequest(m) => m@,
            AppError::NotFound(m) => m@,
        }
    }

    /// The status code of the reply for this error.
    pub fn status_code(&self) -> (r: u16)
        ensures
            r == self.spec_status(),
    {
        match self {
            AppError::BadRequest(_) => STATUS_BAD_REQUEST,
            AppError::NotFound(_) => STATUS_NOT_FOUND,
            _ => STATUS_INTERNAL_SERVER_ERROR,
        }
    }

    /// The reply for this error: its status code, and its description as the body.
    pub fn into_reply(self) -> (r: Reply)
        ensures
            r.status == self.spec_status(),
            r.body@ == self.spec_detail(),
    {
        let status = self.status_code();
        match self {
            AppError::DatabaseError(m) => Reply { status, body: m },
            AppError::Internal(m) => Reply { status, body: m },
            AppError::BadRequest(m) => Reply { status, body: m },
            AppError::NotFound(m) => Reply { status, body: m },
        }
    }
}

} // verus!

verus! {

/// Each error is answered with its own status and its own text: `400` for a bad
/// request, `404` for something missing, `500` for database and internal failures,
/// and the reply's body is the text the error carries.
pub proof fn lemma_error_reply(e: AppError)
    ensures
        (e.spec_status() == 400) <==> e is BadRequest,
        (e.spec_status() == 404) <==> e is NotFound,
        (e.spec_status() == 500) <==> (e is DatabaseError || e is Internal),
        e matches AppError::DatabaseError(m) ==> e.spec_detail() == m@,
        e matches AppError::Internal(m) ==> e.spec_detail() == m@,
        e matches AppError::BadRequest(m) ==> e.spec_detail() == m@,
        e matches AppError::NotFound(m) ==> e.spec_detail() == m@,
{
}

} // verus!
