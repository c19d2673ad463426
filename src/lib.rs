//! An in-process request router: handlers are registered under exact route
//! keys and requests are dispatched to the handler stored for their URL.
pub mod message;
pub mod handler;
pub mod router;
pub mod lemmas;
pub mod helpers;
