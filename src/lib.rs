//! Request-dispatch boundary of an HTTP RPC service: routing of a URI path to
//! a module and a method, validation of the declared body length, the closed
//! vocabulary of status codes and the JSON error envelope.
pub mod status;
pub mod router;
pub mod envelope;
pub mod length;
pub mod request;
pub mod payload;
