//! Response types of the example product's API.
use vstd::prelude::*;
use crate::text::copy_str;

verus! {

pub struct ApiResponse<T> {
    pub status: String,
    pub data: Option<T>,
}

pub struct ExampleApiType {
    pub payload: String,
}

impl ExampleApiType {
    pub fn new(payload: &str) -> (r: ExampleApiType)
        ensures
            r.payload@ == payload@,
    {
        ExampleApiType { payload: copy_str(payload) }
    }
}

pub struct ErrorResponse {
    pub status: String,
    pub message: String,
}

impl ErrorResponse {
    pub fn unauthorized() -> (r: ErrorResponse)
        ensures
            r.status@ == "fail"@,
            r.message@ == "You are not logged in, please provide token"@,
    {
        ErrorResponse {
            status: copy_str("fail"),
            message: copy_str("You are not logged in, please provide token"),
        }
    }

    pub fn insufficient_permissions() -> (r: ErrorResponse)
        ensures
            r.status@ == "fail"@,
            r.message@ == "Insufficient permissions"@,
    {
        ErrorResponse { status: copy_str("fail"), message: copy_str("Insufficient permissions") }
    }

    pub fn internal_error() -> (r: ErrorResponse)
        ensures
            r.status@ == "fail"@,
            r.message@ == "Internal error"@,
    {
        ErrorResponse { status: copy_str("fail"), message: copy_str("Internal error") }
    }
}

} // verus!
