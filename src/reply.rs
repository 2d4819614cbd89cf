use vstd::prelude::*;
use crate::user::User;

verus! {

/// Status of a successful reply.
pub const STATUS_OK: u16 = 200;

/// Status of a reply to a failure on the server's side.
pub const STATUS_SERVER_ERROR: u16 = 500;

/// What a reply carries: plain text, or one user to be written as JSON.
#[derive(Debug, PartialEq, Eq)]
pub enum Body {
    Text(String),
    Json(User),
}

/// A reply to one request: an HTTP status and a body.
#[derive(Debug, PartialEq, Eq)]
pub struct Reply {
    pub status: u16,
    pub body: Body,
}

impl Reply {
    /// The reply holds `status` and the plain text `text`.
    pub open spec fn is_text(self, status: u16, text: Seq<char>) -> bool {
        &&& self.status == status
        &&& self.body matches Body::Text(t) && t@ == text
    }

    /// A reply with `status` and a plain-text body.
    pub fn text(status: u16, text: String) -> (r: Reply)
        ensures
            r.is_text(status, text@),
    {
        Reply { status, body: Body::Text(text) }
    }
}

} // verus!
