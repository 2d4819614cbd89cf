use vstd::prelude::*;
use vstd::string::StringExecFns;
use crate::reply::{Reply, STATUS_OK};

verus! {

/// The body of the greeting at `/`.
pub open spec fn hello_text() -> Seq<char> {
    "Hello world!"@
}

/// The body of the greeting at `/hey`.
pub open spec fn hey_text() -> Seq<char> {
    "Hey there!"@
}

/// The greeting at `/`: always a success with `Hello world!`.
pub fn hello() -> (r: Reply)
    ensures
        r.is_text(STATUS_OK, hello_text()),
{
    Reply::text(STATUS_OK, String::from_str("Hello world!"))
}

/// The greeting at `/hey`: always a success with `Hey there!`.
pub fn manual_hello() -> (r: Reply)
    ensures
        r.is_text(STATUS_OK, hey_text()),
{
    Reply::text(STATUS_OK, String::from_str("Hey there!"))
}

/// The echo at `/echo`: a success whose body is the request body, unchanged.
pub fn echo(req_body: String) -> (r: Reply)
    ensures
        r.is_text(STATUS_OK, req_body@),
{
    Reply::text(STATUS_OK, req_body)
}

} // verus!
