use vstd::prelude::*;
use vstd::string::StringExecFns;
use crate::reply::{Body, Reply, STATUS_OK, STATUS_SERVER_ERROR};
use crate::user::{NewUser, User};

verus! {

/// The body of the reply when no connection could be leased from the pool.
pub open spec fn connection_error_text() -> Seq<char> {
    "Database connection error"@
}

/// The body of the reply when the insert itself failed.
pub open spec fn insert_error_text() -> Seq<char> {
    "Could not create user"@
}

/// A failure reply that tells the caller nothing of its cause: a server error
/// with one of the two fixed messages.
pub open spec fn is_generic_failure(r: Reply) -> bool {
    ||| r.is_text(STATUS_SERVER_ERROR, connection_error_text())
    ||| r.is_text(STATUS_SERVER_ERROR, insert_error_text())
}

/// What the handler does once the pool has answered its lease request.
#[derive(Debug, PartialEq, Eq)]
pub enum LeaseStep {
    /// Issue one insert of this payload on the leased connection.
    Insert(NewUser),
    /// Answer at once, with no insert.
    Respond(Reply),
}

/// `step` is what the handler owes after asking the pool for a connection
/// to insert `new_user`: the insert when a connection was leased, else the
/// connection-error reply.
pub open spec fn lease_step(new_user: NewUser, leased: bool, step: LeaseStep) -> bool {
    if leased {
        step == LeaseStep::Insert(new_user)
    } else {
        step matches LeaseStep::Respond(r) && r.is_text(STATUS_SERVER_ERROR, connection_error_text())
    }
}

/// `r` is the reply owed after the insert: the inserted row as JSON when the
/// database returned it, else the insert-error reply.
pub open spec fn insert_reply(inserted: Option<User>, r: Reply) -> bool {
    match inserted {
        Some(u) => r.status == STATUS_OK && r.body == Body::Json(u),
        None => r.is_text(STATUS_SERVER_ERROR, insert_error_text()),
    }
}

/// Decides the next step of a create-user request once the pool has
/// answered: `leased` tells whether a connection was handed out. There is
/// no retry: a failed lease ends the request with a server error.
pub fn on_lease(new_user: NewUser, leased: bool) -> (r: LeaseStep)
    ensures
        lease_step(new_user, leased, r),
{
    if leased {
        LeaseStep::Insert(new_user)
    } else {
        LeaseStep::Respond(Reply::text(STATUS_SERVER_ERROR, String::from_str("Database connection error")))
    }
}

/// Decides the reply of a create-user request once the insert has run:
/// `inserted` is the row the database returned, or `None` when the insert
/// failed.
pub fn on_insert(inserted: Option<User>) -> (r: Reply)
    ensures
        insert_reply(inserted, r),
{
    match inserted {
        Some(u) => Reply { status: STATUS_OK, body: Body::Json(u) },
        None => Reply::text(STATUS_SERVER_ERROR, String::from_str("Could not create user")),
    }
}

/// Whatever the pool and the database do, a create-user request issues at
/// most one insert, and only of its own payload, and ends in one reply. That
/// reply is a success exactly when a connection was leased and the insert
/// returned a row, and then it carries that row; otherwise it is a server
/// error that reveals nothing of its cause.
pub proof fn lemma_create_user_outcome(
    new_user: NewUser,
    leased: bool,
    inserted: Option<User>,
    step: LeaseStep,
    reply: Reply,
)
    requires
        lease_step(new_user, leased, step),
        step is Insert ==> insert_reply(inserted, reply),
        step matches LeaseStep::Respond(r) ==> reply == r,
    ensures
        step is Insert <==> leased,
        step matches LeaseStep::Insert(p) ==> p == new_user,
        reply.status == STATUS_OK <==> (leased && inserted is Some),
        reply.status == STATUS_OK ==> reply.body == Body::Json(inserted->0),
        reply.status != STATUS_OK ==> is_generic_failure(reply),
{
}

} // verus!
