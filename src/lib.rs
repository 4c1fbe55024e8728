//! A small CRUD service core for todos and labels: the entity and payload
//! types, a request gate that validates decoded bodies, in-memory
//! repositories, and the handlers that turn repository outcomes into HTTP
//! status codes.

pub mod handlers;
pub mod ids;
pub mod label_store;
pub mod model;
pub mod todo_store;
pub mod validate;
