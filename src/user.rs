use vstd::prelude::*;

verus! {

/// A stored user, as the database returns it after an insert. The `id` is
/// assigned by the storage engine, never by this library.
#[derive(Debug, PartialEq, Eq)]
pub struct User {
    pub id: i32,
    pub name: String,
    pub email: String,
}

/// The payload of a create-user request: a name and an email, with no
/// identity of its own.
#[derive(Debug, PartialEq, Eq)]
pub struct NewUser {
    pub name: String,
    pub email: String,
}

} // verus!
