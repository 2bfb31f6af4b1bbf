//! A user directory served over HTTP: the records, their store, the JSON
//! text of each response, and the routing of requests to handlers.

pub mod handlers;
pub mod http;
pub mod json;
pub mod store;
pub mod user;
