use vstd::prelude::*;

verus! {

/// An error as the service reports it: an HTTP status code and a short message.
#[derive(Debug, Clone)]
pub struct ApiError {
    pub status: u16,
    pub message: String,
}

pub open spec fn is_error(e: ApiError, status: u16, message: &str) -> bool {
    e.status == status && e.message@ == message@
}

/// A store failure: reported generically, never with its detail.
pub open spec fn is_internal(e: ApiError) -> bool {
    is_error(e, 500, "Internal server error")
}

/// The resource is absent, or present and hidden from the caller: the two
/// are indistinguishable on purpose.
pub open spec fn is_not_found(e: ApiError) -> bool {
    is_error(e, 404, "Not found")
}

/// The credential is missing or does not verify.
pub open spec fn is_unauthorized(e: ApiError) -> bool {
    is_error(e, 401, "Unauthorized")
}

/// The caller is known but lacks the admin role.
pub open spec fn is_forbidden(e: ApiError) -> bool {
    is_error(e, 403, "Forbidden")
}

/// An argument was rejected; the message says why.
pub open spec fn is_bad_request(e: ApiError) -> bool {
    e.status == 400
}

impl ApiError {
    pub fn new(status: u16, message: String) -> (r: ApiError)
        ensures
            r.status == status,
            r.message@ == message@,
    {
        ApiError { status, message }
    }

    pub fn internal_server_error() -> (r: ApiError)
        ensures
            is_internal(r),
    {
        ApiError::new(500, String::from_str("Internal server error"))
    }

    pub fn not_found() -> (r: ApiError)
        ensures
            is_not_found(r),
    {
        ApiError::new(404, String::from_str("Not found"))
    }

    pub fn unauthorized() -> (r: ApiError)
        ensures
            is_unauthorized(r),
    {
        ApiError::new(401, String::from_str("Unauthorized"))
    }

    pub fn forbidden() -> (r: ApiError)
        ensures
            is_forbidden(r),
    {
        ApiError::new(403, String::from_str("Forbidden"))
    }

    pub fn not_implemented() -> (r: ApiError)
        ensures
            is_error(r, 501, "Not implemented"),
    {
        ApiError::new(501, String::from_str("Not implemented"))
    }

    pub fn bad_request(message: &str) -> (r: ApiError)
        ensures
            is_bad_request(r),
            r.message@ == message@,
    {
        ApiError::new(400, String::from_str(message))
    }
}

/// The envelope in which a response body travels: its status code and data.
pub struct Response<R> {
    pub status: u16,
    pub data: R,
}

} // verus!
