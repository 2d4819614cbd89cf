//! A small user service: two fixed greetings, an echo, and the decisions of
//! the handler that inserts one user through a pooled database connection.
//!
//! The HTTP server, the connection pool and the database engine are
//! collaborators outside this library. Here stand the values they exchange,
//! the route table, and the replies that each route owes.

mod user;
mod reply;
mod route;
mod greeting;
mod create_user;

pub use user::{NewUser, User};
pub use reply::{Body, Reply, STATUS_OK, STATUS_SERVER_ERROR};
pub use route::{lemma_routes_distinct, Method, Route, BIND_PORT};
pub use greeting::{echo, hello, manual_hello};
pub use create_user::{lemma_create_user_outcome, on_insert, on_lease, LeaseStep};
