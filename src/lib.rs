//! A read-only word-game API: the route table, the language gate, the
//! storage keys and the replies, decided over plain values.
//! Storage access and HTTP plumbing are left to the caller.
pub mod documents;
pub mod laws;
pub mod replies;
pub mod routes;
pub mod text;
