//! The envelope the teacher server wraps every JSON answer in.
use vstd::prelude::*;
use vstd::string::StringExecFns;

verus! {

/// A teacher server answer: `code` 0 means success and then `data` holds the payload.
#[derive(Debug)]
pub struct ApiResponse<T> {
    pub code: i32,
    pub message: String,
    pub data: Option<T>,
}

/// `prefix` followed by the server's message, the error a failed call reports.
pub fn failure_message(prefix: &str, message: &str) -> (r: String)
    ensures
        r@ == prefix@ + message@,
{
    let mut r = String::from_str(prefix);
    r.append(message);
    r
}

} // verus!
