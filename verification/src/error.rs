use vstd::prelude::*;

verus! {

/// The three failure classes a request can end in: an unknown collection,
/// a malformed request value, or a database-side failure.
#[derive(Clone, Copy, Debug, PartialEq, Eq, Structural)]
pub enum ApiErrorKind {
    NotFound,
    BadRequest,
    Internal,
}

/// A typed error carried from the store and handler logic out to the HTTP
/// layer, which turns the kind into a status code.
#[derive(Debug)]
pub struct ApiError {
    pub kind: ApiErrorKind,
    pub message: String,
}

impl ApiError {
    pub fn new(kind: ApiErrorKind, message: String) -> (r: ApiError)
        ensures
            r.kind == kind,
            r.message == message,
    {
        ApiError { kind, message }
    }

    /// The NotFound error an unknown collection name yields.
    pub fn collection_not_found(collection_id: &str) -> (r: ApiError)
        ensures
            r.kind == ApiErrorKind::NotFound,
            r.message@ == "Collection "@ + collection_id@ + " not found"@,
    {
        let mut message = "Collection ".to_owned();
        message.append(collection_id);
        message.append(" not found");
        proof {
            assert(message@ =~= "Collection "@ + collection_id@ + " not found"@);
        }
        ApiError { kind: ApiErrorKind::NotFound, message }
    }

    /// The HTTP status code each error kind maps to.
    pub fn status_code(&self) -> (r: u16)
        ensures
            self.kind == ApiErrorKind::NotFound ==> r == 404,
            self.kind == ApiErrorKind::BadRequest ==> r == 400,
            self.kind == ApiErrorKind::Internal ==> r == 500,
    {
        match self.kind {
            ApiErrorKind::NotFound => 404,
            ApiErrorKind::BadRequest => 400,
            ApiErrorKind::Internal => 500,
        }
    }
}

} // verus!
