//! Request handling for a small HTTP service with three fixed routes:
//! `GET /` greets, `POST /echo` answers with the request body, and
//! `GET /hey` answers with a second greeting.

pub mod routes;

pub use routes::{echo, hello, manual_hello, route, Method, Reply, METHOD_NOT_ALLOWED, NOT_FOUND, OK};
